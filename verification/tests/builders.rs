use archweb::{
    Arch, IsFlagged, PackageDetailsParam, PackageDetailsParamBuilder, PackageInternalFilesParam,
    PackageInternalFilesParamBuilder, PackageSearchParamBuilder, Repo,
};

#[test]
fn test_package_search_param_builder() {
    let b = PackageSearchParamBuilder::default()
        .query("query")
        .name("name")
        .repo(Repo::Core)
        .arch(Arch::Any)
        .flagged(IsFlagged::NotFlagged)
        .build();

    println!("PackageSearchParamBuilder: {:?}", b);

    b.unwrap();
}

#[test]
fn search_builder_fields_carry_over() {
    let p = PackageSearchParamBuilder::default()
        .query("pacman")
        .maintainer("someone")
        .packager("else")
        .description("a desc")
        .build()
        .unwrap();
    assert_eq!(p.query.as_deref(), Some("pacman"));
    assert_eq!(p.name, None);
    assert_eq!(p.description.as_deref(), Some("a desc"));
    assert_eq!(p.repo, None);
    assert_eq!(p.arch, None);
    assert_eq!(p.maintainer.as_deref(), Some("someone"));
    assert_eq!(p.packager.as_deref(), Some("else"));
    assert_eq!(p.flagged, None);
}

#[test]
fn details_builder_complete() {
    let p = PackageDetailsParamBuilder::create_empty()
        .repo(Repo::Core)
        .arch(Arch::X86_64)
        .pkgname("pacman")
        .build()
        .unwrap();
    assert_eq!(
        p,
        PackageDetailsParam {
            repo: Repo::Core,
            arch: Arch::X86_64,
            pkgname: "pacman".to_string(),
        }
    );
}

#[test]
fn details_builder_missing_field_fails() {
    let b = PackageDetailsParamBuilder::create_empty().repo(Repo::Extra).arch(Arch::Any);
    assert!(b.build().is_none());
}

#[test]
fn files_builder_complete() {
    let p = PackageInternalFilesParamBuilder::create_empty()
        .repo(Repo::Core)
        .arch(Arch::X86_64)
        .pkgname("pacman")
        .build()
        .unwrap();
    assert_eq!(
        p,
        PackageInternalFilesParam {
            repo: Repo::Core,
            arch: Arch::X86_64,
            pkgname: "pacman".to_string(),
        }
    );
}

#[test]
fn files_builder_missing_pkgname_fails() {
    let b = PackageInternalFilesParamBuilder::create_empty().repo(Repo::Multilib).arch(Arch::Any);
    assert!(b.build().is_none());
}
