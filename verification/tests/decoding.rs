use archweb::{
    decode_package_details, decode_package_internal_files, decode_package_search_result, Error,
};

fn sample_row(pkgname: &str, pkgver: &str, flag_date: &str) -> String {
    format!(
        "{{\"pkgname\":\"{}\",\"pkgbase\":\"{}\",\"repo\":\"core\",\"arch\":\"x86_64\",\"pkgver\":\"{}\",\"pkgrel\":\"1\",\"epoch\":0,\"pkgdesc\":\"a package\",\"url\":\"https://example.invalid\",\"filename\":\"{}.pkg.tar.zst\",\"compressed_size\":1024,\"installed_size\":4096,\"build_date\":\"2024-01-01T00:00:00Z\",\"last_update\":\"2024-01-02T00:00:00Z\",\"flag_date\":{},\"maintainers\":[\"Maintainer One\"],\"packager\":\"Packager One\",\"groups\":[],\"licenses\":[\"GPL\"],\"conflicts\":[],\"provides\":[\"tool\"],\"replaces\":[\"oldtool\"],\"depends\":[\"glibc\"],\"optdepends\":[],\"makedepends\":[],\"checkdepends\":[]}}",
        pkgname, pkgname, pkgver, pkgname, flag_date
    )
}

fn sample_search_doc(rows: &[String]) -> String {
    format!(
        "{{\"version\":2,\"limit\":250,\"valid\":true,\"results\":[{}],\"num_pages\":1,\"page\":1}}",
        rows.join(",")
    )
}

#[test]
fn search_decode_preserves_rows_in_order() {
    let rows = vec![
        sample_row("pacman", "6.1.0", "null"),
        sample_row("coreutils", "9.4", "\"2024-02-01T00:00:00Z\""),
    ];
    let doc = sample_search_doc(&rows);
    let result = decode_package_search_result(&doc).unwrap();
    assert_eq!(result.version, 2);
    assert_eq!(result.limit, 250);
    assert!(result.valid);
    assert_eq!(result.num_pages, 1);
    assert_eq!(result.page, 1);
    assert_eq!(result.results.len(), 2);
    assert_eq!(result.results[0].pkgname, "pacman");
    assert_eq!(result.results[0].pkgver, "6.1.0");
    assert_eq!(result.results[0].flag_date, None);
    assert_eq!(result.results[0].epoch, 0);
    assert_eq!(result.results[0].compressed_size, 1024);
    assert_eq!(result.results[0].maintainers, vec!["Maintainer One".to_string()]);
    assert_eq!(result.results[0].provides, vec!["tool".to_string()]);
    assert_eq!(result.results[1].pkgname, "coreutils");
    assert_eq!(result.results[1].pkgver, "9.4");
    assert_eq!(
        result.results[1].flag_date.as_deref(),
        Some("2024-02-01T00:00:00Z")
    );
}

#[test]
fn search_decode_missing_pkgname_is_decode_error() {
    let row = sample_row("pacman", "6.1.0", "null").replace("\"pkgname\":\"pacman\",", "");
    let doc = sample_search_doc(&[row]);
    assert_eq!(decode_package_search_result(&doc), Err(Error::DecodeError));
}

#[test]
fn search_decode_wrong_type_is_decode_error() {
    let row = sample_row("pacman", "6.1.0", "null").replace("\"epoch\":0", "\"epoch\":\"zero\"");
    let doc = sample_search_doc(&[row]);
    assert_eq!(decode_package_search_result(&doc), Err(Error::DecodeError));
}

#[test]
fn search_decode_not_json_is_decode_error() {
    assert_eq!(
        decode_package_search_result("not json at all"),
        Err(Error::DecodeError)
    );
}

#[test]
fn search_decode_extra_fields_ignored() {
    let row = sample_row("pacman", "6.1.0", "null");
    let doc = sample_search_doc(&[row]).replace(
        "\"version\":2,",
        "\"version\":2,\"surprise\":[1,2,3],",
    );
    let result = decode_package_search_result(&doc).unwrap();
    assert_eq!(result.results.len(), 1);
}

fn sample_details_doc() -> String {
    "{\"pkgname\":\"pacman\",\"pkgbase\":\"pacman\",\"repo\":\"core\",\"arch\":\"x86_64\",\"pkgver\":\"6.1.0\",\"pkgrel\":\"3\",\"epoch\":1,\"pkgdesc\":\"package manager\",\"url\":\"https://example.invalid\",\"filename\":\"pacman.pkg.tar.zst\",\"compressed_size\":2048,\"installed_size\":8192,\"build_date\":\"2024-01-01T00:00:00Z\",\"last_update\":\"2024-01-02T00:00:00Z\",\"flag_date\":null,\"maintainers\":[\"Maintainer One\",\"Maintainer Two\"],\"packager\":\"Packager One\",\"groups\":[\"base\"],\"licenses\":[\"GPL\"],\"conflicts\":[],\"provides\":[{\"name\":\"libalpm.so\",\"version\":\"15\"}],\"replaces\":[\"pacman-contrib\"],\"depends\":[\"glibc\",\"curl\"],\"optdepends\":[null,\"perl: for scripts\"],\"makedepends\":[],\"checkdepends\":[]}"
        .to_string()
}

#[test]
fn details_decode_ok() {
    let details = decode_package_details(&sample_details_doc()).unwrap();
    assert_eq!(details.pkgname, "pacman");
    assert_eq!(details.epoch, 1);
    assert_eq!(details.pkgrel, "3");
    assert_eq!(details.compressed_size, 2048);
    assert_eq!(details.installed_size, 8192);
    assert!(details.flag_date.is_null());
    assert_eq!(
        details.maintainers,
        vec!["Maintainer One".to_string(), "Maintainer Two".to_string()]
    );
    assert_eq!(details.licenses, vec!["GPL".to_string()]);
    assert_eq!(details.depends, vec!["glibc".to_string(), "curl".to_string()]);
    assert_eq!(details.provides.len(), 1);
    assert_eq!(
        details.provides[0].get("name").and_then(|v| v.as_str()),
        Some("libalpm.so")
    );
    assert_eq!(details.optdepends.len(), 2);
    assert!(details.optdepends[0].is_null());
    assert_eq!(details.optdepends[1].as_str(), Some("perl: for scripts"));
}

#[test]
fn details_decode_missing_pkgname_is_decode_error() {
    let doc = sample_details_doc().replace("\"pkgname\":\"pacman\",", "");
    assert_eq!(decode_package_details(&doc), Err(Error::DecodeError));
}

fn sample_files_doc() -> String {
    "{\"pkgname\":\"coreutils\",\"repo\":\"core\",\"arch\":\"x86_64\",\"pkg_last_update\":\"2024-01-02T00:00:00Z\",\"files_last_update\":\"2024-01-03T00:00:00Z\",\"files_count\":2,\"dir_count\":1,\"files\":[\"usr/\",\"usr/bin/coreutils\"]}"
        .to_string()
}

#[test]
fn files_decode_ok() {
    let files = decode_package_internal_files(&sample_files_doc()).unwrap();
    assert_eq!(files.pkgname, "coreutils");
    assert_eq!(files.repo, "core");
    assert_eq!(files.arch, "x86_64");
    assert_eq!(files.files_count, 2);
    assert_eq!(files.dir_count, 1);
    assert_eq!(
        files.files,
        vec!["usr/".to_string(), "usr/bin/coreutils".to_string()]
    );
}

#[test]
fn files_decode_missing_count_is_decode_error() {
    let doc = sample_files_doc().replace("\"files_count\":2,", "");
    assert_eq!(decode_package_internal_files(&doc), Err(Error::DecodeError));
}

#[test]
fn files_decode_non_string_entry_is_decode_error() {
    let doc = sample_files_doc().replace("\"usr/\"", "7");
    assert_eq!(decode_package_internal_files(&doc), Err(Error::DecodeError));
}
