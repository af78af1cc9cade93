use vstd::prelude::*;

use crate::types::{arch_label, repo_label, Arch, Repo};
use crate::urlseg::{
    lemma_arch_label_plain, lemma_fixed_segments_plain, lemma_repo_label_plain, packages_base,
    plain_joined_url, plain_path_segment, pushed_segments_url, url_with_path_segments,
};

verus! {

/// Parameters of a package detail lookup; all three fields are mandatory
/// and never changed once the value is handed to a request function.
#[derive(Clone, Debug, PartialEq)]
pub struct PackageDetailsParam {
    pub repo: Repo,
    pub arch: Arch,
    pub pkgname: String,
}

/// Assembles a `PackageDetailsParam` field by field; `build` hands the
/// parameter out only once every field has been set.
#[derive(Clone, Debug)]
pub struct PackageDetailsParamBuilder {
    pub repo: Option<Repo>,
    pub arch: Option<Arch>,
    pub pkgname: Option<String>,
}

impl PackageDetailsParamBuilder {
    pub fn create_empty() -> (r: Self)
        ensures
            r.repo is None,
            r.arch is None,
            r.pkgname is None,
    {
        PackageDetailsParamBuilder { repo: None, arch: None, pkgname: None }
    }

    pub fn repo(self, value: Repo) -> (r: Self)
        ensures
            r.repo == Some(value),
            r.arch == self.arch,
            r.pkgname == self.pkgname,
    {
        PackageDetailsParamBuilder { repo: Some(value), ..self }
    }

    pub fn arch(self, value: Arch) -> (r: Self)
        ensures
            r.arch == Some(value),
            r.repo == self.repo,
            r.pkgname == self.pkgname,
    {
        PackageDetailsParamBuilder { arch: Some(value), ..self }
    }

    pub fn pkgname(self, value: &str) -> (r: Self)
        ensures
            r.pkgname matches Some(p) && p@ == value@,
            r.repo == self.repo,
            r.arch == self.arch,
    {
        PackageDetailsParamBuilder { pkgname: Some(value.to_owned()), ..self }
    }

    pub fn build(self) -> (r: Option<PackageDetailsParam>)
        ensures
            r is Some <==> self.repo is Some && self.arch is Some && self.pkgname is Some,
            r is Some ==> r->Some_0 == (PackageDetailsParam {
                repo: self.repo->Some_0,
                arch: self.arch->Some_0,
                pkgname: self.pkgname->Some_0,
            }),
    {
        match (self.repo, self.arch, self.pkgname) {
            (Some(repo), Some(arch), Some(pkgname)) => Some(
                PackageDetailsParam { repo, arch, pkgname },
            ),
            _ => None,
        }
    }
}

/// The detail-endpoint URL as the `url` crate serializes it: the fixed base
/// with the path segments repo label, arch label, pkgname, `json`.
pub open spec fn details_url(repo: Repo, arch: Arch, pkgname: Seq<char>) -> Seq<char> {
    pushed_segments_url(
        packages_base(),
        seq![repo_label(repo), arch_label(arch), pkgname, "json"@],
    )
}

/// The detail-endpoint URL spelled out; equal to `details_url` whenever the
/// package name needs no percent-encoding.
pub open spec fn details_url_plain(repo: Repo, arch: Arch, pkgname: Seq<char>) -> Seq<char> {
    packages_base() + seq!['/'] + repo_label(repo) + seq!['/'] + arch_label(arch) + seq!['/']
        + pkgname + seq!['/'] + "json"@
}

/// Builds the URL of the package detail endpoint for the given parameters.
pub fn build_details_url(param: PackageDetailsParam) -> (r: String)
    ensures
        r@ == details_url(param.repo, param.arch, param.pkgname@),
        plain_path_segment(param.pkgname@) ==> r@ == details_url_plain(
            param.repo,
            param.arch,
            param.pkgname@,
        ),
{
    let ghost pkg: Seq<char> = param.pkgname@;
    let mut segments: Vec<String> = Vec::new();
    segments.push(param.repo.to_query_param_value().to_owned());
    segments.push(param.arch.to_query_param_value().to_owned());
    segments.push(param.pkgname);
    segments.push("json".to_owned());
    let ghost segs: Seq<Seq<char>> = seq![
        repo_label(param.repo),
        arch_label(param.arch),
        pkg,
        "json"@,
    ];
    proof {
        assert(segments@.map_values(|s: String| s@) =~= segs);
    }
    let r = url_with_path_segments("https://archlinux.org/packages", &segments);
    proof {
        lemma_repo_label_plain(param.repo);
        lemma_arch_label_plain(param.arch);
        lemma_fixed_segments_plain();
        if plain_path_segment(pkg) {
            assert forall|i: int| 0 <= i < segments@.len() implies plain_path_segment(
                #[trigger] segments@[i]@,
            ) by {
                assert(segments@[i]@ == segs[i]);
            }
            assert(segs.drop_last() =~= seq![repo_label(param.repo), arch_label(param.arch), pkg]);
            assert(segs.drop_last().drop_last() =~= seq![
                repo_label(param.repo),
                arch_label(param.arch),
            ]);
            assert(segs.drop_last().drop_last().drop_last() =~= seq![repo_label(param.repo)]);
            assert(seq![repo_label(param.repo)].drop_last() =~= Seq::<Seq<char>>::empty());
            reveal_with_fuel(plain_joined_url, 6);
            assert(r@ == details_url_plain(param.repo, param.arch, pkg));
        }
    }
    r
}

} // verus!
