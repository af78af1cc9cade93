use vstd::prelude::*;

use crate::json::{json_model, JsonSpec};

verus! {

/// A named package repository channel of the archlinux.org package database.
#[derive(Clone, Debug, PartialEq, Eq, Structural)]
pub enum Repo {
    Core,
    CoreTesting,
    Extra,
    ExtraTesting,
    Multilib,
    MultilibTesting,
}

/// The exact label of a repository channel, as it appears in URL path
/// segments and query values.
pub open spec fn repo_label(r: Repo) -> Seq<char> {
    match r {
        Repo::Core => "Core"@,
        Repo::CoreTesting => "Core-Testing"@,
        Repo::Extra => "Extra"@,
        Repo::ExtraTesting => "Extra-Testing"@,
        Repo::Multilib => "Multilib"@,
        Repo::MultilibTesting => "Multilib-Testing"@,
    }
}

impl Repo {
    pub fn to_query_param_value(&self) -> (r: &'static str)
        ensures
            r@ == repo_label(*self),
    {
        match self {
            Repo::Core => "Core",
            Repo::CoreTesting => "Core-Testing",
            Repo::Extra => "Extra",
            Repo::ExtraTesting => "Extra-Testing",
            Repo::Multilib => "Multilib",
            Repo::MultilibTesting => "Multilib-Testing",
        }
    }
}

/// Target CPU architecture classifier for a package build.
#[derive(Clone, Debug, PartialEq, Eq, Structural)]
pub enum Arch {
    Any,
    X86_64,
}

/// The exact label of an architecture, as it appears in URL path segments
/// and query values.
pub open spec fn arch_label(a: Arch) -> Seq<char> {
    match a {
        Arch::Any => "any"@,
        Arch::X86_64 => "x86_64"@,
    }
}

impl Arch {
    pub fn to_query_param_value(&self) -> (r: &'static str)
        ensures
            r@ == arch_label(*self),
    {
        match self {
            Arch::Any => "any",
            Arch::X86_64 => "x86_64",
        }
    }
}

/// Marker telling whether a package version has been reported out-of-date.
#[derive(Clone, Debug, PartialEq, Eq, Structural)]
pub enum IsFlagged {
    Flagged,
    NotFlagged,
}

/// The exact query value of a flagged marker (the space is URL-encoded).
pub open spec fn flagged_label(f: IsFlagged) -> Seq<char> {
    match f {
        IsFlagged::Flagged => "Flagged"@,
        IsFlagged::NotFlagged => "Not+Flagged"@,
    }
}

impl IsFlagged {
    pub fn to_query_param_value(&self) -> (r: &'static str)
        ensures
            r@ == flagged_label(*self),
    {
        match self {
            IsFlagged::Flagged => "Flagged",
            IsFlagged::NotFlagged => "Not+Flagged",
        }
    }
}

/// What a call against the package database can fail with: a transport
/// failure carrying the transport's message, or a response body that does
/// not match the expected schema.
#[derive(Clone, Debug, PartialEq)]
pub enum Error {
    NetworkError(String),
    DecodeError,
}

/// One row of a search response. Fields whose upstream shape varies across
/// package records stay opaque JSON values.
#[derive(Debug, Clone, PartialEq)]
pub struct Package {
    pub pkgname: String,
    pub pkgbase: String,
    pub repo: String,
    pub arch: String,
    pub pkgver: String,
    pub pkgrel: String,
    pub epoch: i64,
    pub pkgdesc: String,
    pub url: String,
    pub filename: String,
    pub compressed_size: i64,
    pub installed_size: i64,
    pub build_date: String,
    pub last_update: String,
    pub flag_date: Option<String>,
    pub maintainers: Vec<String>,
    pub packager: String,
    pub groups: Vec<String>,
    pub licenses: Vec<String>,
    pub conflicts: Vec<String>,
    pub provides: Vec<String>,
    pub replaces: Vec<serde_json::Value>,
    pub depends: Vec<String>,
    pub optdepends: Vec<String>,
    pub makedepends: Vec<String>,
    pub checkdepends: Vec<String>,
}

/// The mathematical content of a `Package`.
#[verifier::ext_equal]
pub struct PackageView {
    pub pkgname: Seq<char>,
    pub pkgbase: Seq<char>,
    pub repo: Seq<char>,
    pub arch: Seq<char>,
    pub pkgver: Seq<char>,
    pub pkgrel: Seq<char>,
    pub epoch: i64,
    pub pkgdesc: Seq<char>,
    pub url: Seq<char>,
    pub filename: Seq<char>,
    pub compressed_size: i64,
    pub installed_size: i64,
    pub build_date: Seq<char>,
    pub last_update: Seq<char>,
    pub flag_date: Option<Seq<char>>,
    pub maintainers: Seq<Seq<char>>,
    pub packager: Seq<char>,
    pub groups: Seq<Seq<char>>,
    pub licenses: Seq<Seq<char>>,
    pub conflicts: Seq<Seq<char>>,
    pub provides: Seq<Seq<char>>,
    pub replaces: Seq<JsonSpec>,
    pub depends: Seq<Seq<char>>,
    pub optdepends: Seq<Seq<char>>,
    pub makedepends: Seq<Seq<char>>,
    pub checkdepends: Seq<Seq<char>>,
}

impl View for Package {
    type V = PackageView;

    open spec fn view(&self) -> PackageView {
        PackageView {
            pkgname: self.pkgname@,
            pkgbase: self.pkgbase@,
            repo: self.repo@,
            arch: self.arch@,
            pkgver: self.pkgver@,
            pkgrel: self.pkgrel@,
            epoch: self.epoch,
            pkgdesc: self.pkgdesc@,
            url: self.url@,
            filename: self.filename@,
            compressed_size: self.compressed_size,
            installed_size: self.installed_size,
            build_date: self.build_date@,
            last_update: self.last_update@,
            flag_date: match self.flag_date {
                Some(s) => Some(s@),
                None => None,
            },
            maintainers: self.maintainers.deep_view(),
            packager: self.packager@,
            groups: self.groups.deep_view(),
            licenses: self.licenses.deep_view(),
            conflicts: self.conflicts.deep_view(),
            provides: self.provides.deep_view(),
            replaces: self.replaces@.map_values(|e: serde_json::Value| json_model(e)),
            depends: self.depends.deep_view(),
            optdepends: self.optdepends.deep_view(),
            makedepends: self.makedepends.deep_view(),
            checkdepends: self.checkdepends.deep_view(),
        }
    }
}

/// A single-package detail response. More of its fields vary in shape
/// upstream, so they stay opaque JSON values.
#[derive(Debug, Clone, PartialEq)]
pub struct PackageDetails {
    pub pkgname: String,
    pub pkgbase: String,
    pub repo: String,
    pub arch: String,
    pub pkgver: String,
    pub pkgrel: String,
    pub epoch: i64,
    pub pkgdesc: String,
    pub url: String,
    pub filename: String,
    pub compressed_size: i64,
    pub installed_size: i64,
    pub build_date: String,
    pub last_update: String,
    pub flag_date: serde_json::Value,
    pub maintainers: Vec<String>,
    pub packager: String,
    pub groups: Vec<serde_json::Value>,
    pub licenses: Vec<String>,
    pub conflicts: Vec<serde_json::Value>,
    pub provides: Vec<serde_json::Value>,
    pub replaces: Vec<serde_json::Value>,
    pub depends: Vec<String>,
    pub optdepends: Vec<serde_json::Value>,
    pub makedepends: Vec<serde_json::Value>,
    pub checkdepends: Vec<serde_json::Value>,
}

/// The mathematical content of a `PackageDetails`.
#[verifier::ext_equal]
pub struct PackageDetailsView {
    pub pkgname: Seq<char>,
    pub pkgbase: Seq<char>,
    pub repo: Seq<char>,
    pub arch: Seq<char>,
    pub pkgver: Seq<char>,
    pub pkgrel: Seq<char>,
    pub epoch: i64,
    pub pkgdesc: Seq<char>,
    pub url: Seq<char>,
    pub filename: Seq<char>,
    pub compressed_size: i64,
    pub installed_size: i64,
    pub build_date: Seq<char>,
    pub last_update: Seq<char>,
    pub flag_date: JsonSpec,
    pub maintainers: Seq<Seq<char>>,
    pub packager: Seq<char>,
    pub groups: Seq<JsonSpec>,
    pub licenses: Seq<Seq<char>>,
    pub conflicts: Seq<JsonSpec>,
    pub provides: Seq<JsonSpec>,
    pub replaces: Seq<JsonSpec>,
    pub depends: Seq<Seq<char>>,
    pub optdepends: Seq<JsonSpec>,
    pub makedepends: Seq<JsonSpec>,
    pub checkdepends: Seq<JsonSpec>,
}

impl View for PackageDetails {
    type V = PackageDetailsView;

    open spec fn view(&self) -> PackageDetailsView {
        PackageDetailsView {
            pkgname: self.pkgname@,
            pkgbase: self.pkgbase@,
            repo: self.repo@,
            arch: self.arch@,
            pkgver: self.pkgver@,
            pkgrel: self.pkgrel@,
            epoch: self.epoch,
            pkgdesc: self.pkgdesc@,
            url: self.url@,
            filename: self.filename@,
            compressed_size: self.compressed_size,
            installed_size: self.installed_size,
            build_date: self.build_date@,
            last_update: self.last_update@,
            flag_date: json_model(self.flag_date),
            maintainers: self.maintainers.deep_view(),
            packager: self.packager@,
            groups: self.groups@.map_values(|e: serde_json::Value| json_model(e)),
            licenses: self.licenses.deep_view(),
            conflicts: self.conflicts@.map_values(|e: serde_json::Value| json_model(e)),
            provides: self.provides@.map_values(|e: serde_json::Value| json_model(e)),
            replaces: self.replaces@.map_values(|e: serde_json::Value| json_model(e)),
            depends: self.depends.deep_view(),
            optdepends: self.optdepends@.map_values(|e: serde_json::Value| json_model(e)),
            makedepends: self.makedepends@.map_values(|e: serde_json::Value| json_model(e)),
            checkdepends: self.checkdepends@.map_values(|e: serde_json::Value| json_model(e)),
        }
    }
}

/// One page of a search response.
#[derive(Debug, Clone, PartialEq)]
pub struct PackageSearchResult {
    pub version: i64,
    pub limit: i64,
    pub valid: bool,
    pub results: Vec<Package>,
    pub num_pages: i64,
    pub page: i64,
}

/// The mathematical content of a `PackageSearchResult`.
#[verifier::ext_equal]
pub struct PackageSearchResultView {
    pub version: i64,
    pub limit: i64,
    pub valid: bool,
    pub results: Seq<PackageView>,
    pub num_pages: i64,
    pub page: i64,
}

impl View for PackageSearchResult {
    type V = PackageSearchResultView;

    open spec fn view(&self) -> PackageSearchResultView {
        PackageSearchResultView {
            version: self.version,
            limit: self.limit,
            valid: self.valid,
            results: self.results@.map_values(|p: Package| p@),
            num_pages: self.num_pages,
            page: self.page,
        }
    }
}

/// A package file-listing response.
#[derive(Debug, Clone, PartialEq)]
pub struct PackageInternalFiles {
    pub pkgname: String,
    pub repo: String,
    pub arch: String,
    pub pkg_last_update: String,
    pub files_last_update: String,
    pub files_count: i64,
    pub dir_count: i64,
    pub files: Vec<String>,
}

/// The mathematical content of a `PackageInternalFiles`.
#[verifier::ext_equal]
pub struct PackageInternalFilesView {
    pub pkgname: Seq<char>,
    pub repo: Seq<char>,
    pub arch: Seq<char>,
    pub pkg_last_update: Seq<char>,
    pub files_last_update: Seq<char>,
    pub files_count: i64,
    pub dir_count: i64,
    pub files: Seq<Seq<char>>,
}

impl View for PackageInternalFiles {
    type V = PackageInternalFilesView;

    open spec fn view(&self) -> PackageInternalFilesView {
        PackageInternalFilesView {
            pkgname: self.pkgname@,
            repo: self.repo@,
            arch: self.arch@,
            pkg_last_update: self.pkg_last_update@,
            files_last_update: self.files_last_update@,
            files_count: self.files_count,
            dir_count: self.dir_count,
            files: self.files.deep_view(),
        }
    }
}

} // verus!
