use archweb::{
    build_query_param, Arch, IsFlagged, PackageSearchParam, PackageSearchParamBuilder, Repo,
};

fn pairs_of(p: PackageSearchParam) -> Vec<(String, String)> {
    build_query_param(p)
}

#[test]
fn query_only_set_fields_appear() {
    let p = PackageSearchParamBuilder::default()
        .query("pacman")
        .repo(Repo::Core)
        .build()
        .unwrap();
    let pairs = pairs_of(p);
    assert_eq!(
        pairs,
        vec![
            ("q".to_string(), "pacman".to_string()),
            ("repo".to_string(), "Core".to_string()),
        ]
    );
}

#[test]
fn query_all_unset_is_empty() {
    let p = PackageSearchParamBuilder::default().build().unwrap();
    assert_eq!(pairs_of(p), Vec::<(String, String)>::new());
}

#[test]
fn query_all_fields_in_fixed_order() {
    let p = PackageSearchParam {
        query: Some("q-value".to_string()),
        name: Some("n-value".to_string()),
        description: Some("d-value".to_string()),
        repo: Some(Repo::MultilibTesting),
        arch: Some(Arch::X86_64),
        maintainer: Some("m-value".to_string()),
        packager: Some("p-value".to_string()),
        flagged: Some(IsFlagged::NotFlagged),
    };
    let pairs = pairs_of(p);
    assert_eq!(
        pairs,
        vec![
            ("q".to_string(), "q-value".to_string()),
            ("name".to_string(), "n-value".to_string()),
            ("description".to_string(), "d-value".to_string()),
            ("repo".to_string(), "Multilib-Testing".to_string()),
            ("arch".to_string(), "x86_64".to_string()),
            ("maintainer".to_string(), "m-value".to_string()),
            ("packager".to_string(), "p-value".to_string()),
            ("flagged".to_string(), "Not+Flagged".to_string()),
        ]
    );
}

#[test]
fn query_flagged_label() {
    let p = PackageSearchParamBuilder::default().flagged(IsFlagged::Flagged).build().unwrap();
    assert_eq!(pairs_of(p), vec![("flagged".to_string(), "Flagged".to_string())]);
}

#[test]
fn query_arch_any_label() {
    let p = PackageSearchParamBuilder::default().arch(Arch::Any).build().unwrap();
    assert_eq!(pairs_of(p), vec![("arch".to_string(), "any".to_string())]);
}

#[test]
fn label_values_exact() {
    assert_eq!(Repo::Core.to_query_param_value(), "Core");
    assert_eq!(Repo::CoreTesting.to_query_param_value(), "Core-Testing");
    assert_eq!(Repo::Extra.to_query_param_value(), "Extra");
    assert_eq!(Repo::ExtraTesting.to_query_param_value(), "Extra-Testing");
    assert_eq!(Repo::Multilib.to_query_param_value(), "Multilib");
    assert_eq!(Repo::MultilibTesting.to_query_param_value(), "Multilib-Testing");
    assert_eq!(Arch::Any.to_query_param_value(), "any");
    assert_eq!(Arch::X86_64.to_query_param_value(), "x86_64");
    assert_eq!(IsFlagged::Flagged.to_query_param_value(), "Flagged");
    assert_eq!(IsFlagged::NotFlagged.to_query_param_value(), "Not+Flagged");
}
