use archweb::{
    build_details_url, build_files_url, Arch, PackageDetailsParam, PackageDetailsParamBuilder,
    PackageInternalFilesParam, PackageInternalFilesParamBuilder, Repo,
};

#[test]
fn details_test_build_url() {
    let p = PackageDetailsParamBuilder::create_empty()
        .repo(Repo::Core)
        .arch(Arch::X86_64)
        .pkgname("coreutils")
        .build()
        .unwrap();

    let url = build_details_url(p);
    assert_eq!(
        url.to_string(),
        "https://archlinux.org/packages/Core/x86_64/coreutils/json",
    )
}

#[test]
fn files_test_build_url() {
    let p = PackageInternalFilesParamBuilder::create_empty()
        .repo(Repo::Core)
        .arch(Arch::X86_64)
        .pkgname("coreutils")
        .build()
        .unwrap();

    let url = build_files_url(p);
    assert_eq!(
        url.to_string(),
        "https://archlinux.org/packages/Core/x86_64/coreutils/files/json",
    )
}

#[test]
fn details_url_every_repo_label() {
    let cases = [
        (Repo::Core, "Core"),
        (Repo::CoreTesting, "Core-Testing"),
        (Repo::Extra, "Extra"),
        (Repo::ExtraTesting, "Extra-Testing"),
        (Repo::Multilib, "Multilib"),
        (Repo::MultilibTesting, "Multilib-Testing"),
    ];
    for (repo, label) in cases {
        let url = build_details_url(PackageDetailsParam {
            repo,
            arch: Arch::Any,
            pkgname: "pacman".to_string(),
        });
        assert_eq!(
            url,
            format!("https://archlinux.org/packages/{}/any/pacman/json", label)
        );
    }
}

#[test]
fn files_url_any_arch() {
    let url = build_files_url(PackageInternalFilesParam {
        repo: Repo::ExtraTesting,
        arch: Arch::Any,
        pkgname: "linux-firmware".to_string(),
    });
    assert_eq!(
        url,
        "https://archlinux.org/packages/Extra-Testing/any/linux-firmware/files/json"
    );
}

#[test]
fn details_url_encodes_odd_pkgname() {
    let url = build_details_url(PackageDetailsParam {
        repo: Repo::Core,
        arch: Arch::X86_64,
        pkgname: "a b".to_string(),
    });
    assert_eq!(url, "https://archlinux.org/packages/Core/x86_64/a%20b/json");
}
