use vstd::prelude::*;

use crate::json::{
    json_as_array, json_as_bool, json_as_i64, json_as_str, json_get, json_is_null, json_model,
    json_parse, parse_json, JsonSpec,
};
use crate::types::{Error, Package, PackageDetails, PackageDetailsView, PackageInternalFiles,
    PackageInternalFilesView, PackageSearchResult, PackageSearchResultView, PackageView};

verus! {

/// The content a key maps to inside a JSON object, if the value is an
/// object and carries the key.
pub open spec fn spec_field(j: JsonSpec, k: Seq<char>) -> Option<JsonSpec> {
    match j {
        JsonSpec::Obj(m) => if m.contains_key(k) {
            Some(m[k])
        } else {
            None
        },
        _ => None,
    }
}

/// A mandatory string field: present and a string, else the decode fails.
pub open spec fn spec_str_field(j: JsonSpec, k: Seq<char>) -> Result<Seq<char>, Error> {
    match spec_field(j, k) {
        Some(JsonSpec::Str(s)) => Ok(s),
        _ => Err(Error::DecodeError),
    }
}

/// A mandatory signed 64-bit integer field.
pub open spec fn spec_i64_field(j: JsonSpec, k: Seq<char>) -> Result<i64, Error> {
    match spec_field(j, k) {
        Some(JsonSpec::Int(i)) => Ok(i),
        _ => Err(Error::DecodeError),
    }
}

/// A mandatory boolean field.
pub open spec fn spec_bool_field(j: JsonSpec, k: Seq<char>) -> Result<bool, Error> {
    match spec_field(j, k) {
        Some(JsonSpec::Bool(b)) => Ok(b),
        _ => Err(Error::DecodeError),
    }
}

/// A mandatory field of any shape, kept as it is.
pub open spec fn spec_value_field(j: JsonSpec, k: Seq<char>) -> Result<JsonSpec, Error> {
    match spec_field(j, k) {
        Some(x) => Ok(x),
        None => Err(Error::DecodeError),
    }
}

/// An optional string field: absence and null both mean unset; any other
/// non-string shape fails the decode.
pub open spec fn spec_opt_str_field(j: JsonSpec, k: Seq<char>) -> Result<
    Option<Seq<char>>,
    Error,
> {
    match spec_field(j, k) {
        None => Ok(None),
        Some(JsonSpec::Null) => Ok(None),
        Some(JsonSpec::Str(s)) => Ok(Some(s)),
        Some(_) => Err(Error::DecodeError),
    }
}

pub open spec fn all_strs(s: Seq<JsonSpec>) -> bool {
    forall|i: int| 0 <= i < s.len() ==> s[i] is Str
}

pub open spec fn strs_of(s: Seq<JsonSpec>) -> Seq<Seq<char>> {
    s.map_values(|e: JsonSpec| e->Str_0)
}

/// A mandatory field that must be an array of strings.
pub open spec fn spec_str_list_field(j: JsonSpec, k: Seq<char>) -> Result<Seq<Seq<char>>, Error> {
    match spec_field(j, k) {
        Some(JsonSpec::Arr(s)) => if all_strs(s) {
            Ok(strs_of(s))
        } else {
            Err(Error::DecodeError)
        },
        _ => Err(Error::DecodeError),
    }
}

/// A mandatory field that must be an array; its elements are kept as they
/// are.
pub open spec fn spec_value_list_field(j: JsonSpec, k: Seq<char>) -> Result<Seq<JsonSpec>, Error> {
    match spec_field(j, k) {
        Some(JsonSpec::Arr(s)) => Ok(s),
        _ => Err(Error::DecodeError),
    }
}

fn field_str(v: &serde_json::Value, key: &str) -> (r: Result<String, Error>)
    ensures
        match r {
            Ok(s) => spec_str_field(json_model(*v), key@) == Ok::<Seq<char>, Error>(s@),
            Err(e) => spec_str_field(json_model(*v), key@) == Err::<Seq<char>, Error>(e),
        },
{
    match json_get(v, key) {
        Some(x) => match json_as_str(x) {
            Some(s) => Ok(s.to_owned()),
            None => Err(Error::DecodeError),
        },
        None => Err(Error::DecodeError),
    }
}

fn field_i64(v: &serde_json::Value, key: &str) -> (r: Result<i64, Error>)
    ensures
        match r {
            Ok(i) => spec_i64_field(json_model(*v), key@) == Ok::<i64, Error>(i),
            Err(e) => spec_i64_field(json_model(*v), key@) == Err::<i64, Error>(e),
        },
{
    match json_get(v, key) {
        Some(x) => match json_as_i64(x) {
            Some(i) => Ok(i),
            None => Err(Error::DecodeError),
        },
        None => Err(Error::DecodeError),
    }
}

fn field_bool(v: &serde_json::Value, key: &str) -> (r: Result<bool, Error>)
    ensures
        match r {
            Ok(b) => spec_bool_field(json_model(*v), key@) == Ok::<bool, Error>(b),
            Err(e) => spec_bool_field(json_model(*v), key@) == Err::<bool, Error>(e),
        },
{
    match json_get(v, key) {
        Some(x) => match json_as_bool(x) {
            Some(b) => Ok(b),
            None => Err(Error::DecodeError),
        },
        None => Err(Error::DecodeError),
    }
}

fn field_value(v: &serde_json::Value, key: &str) -> (r: Result<serde_json::Value, Error>)
    ensures
        match r {
            Ok(x) => spec_value_field(json_model(*v), key@) == Ok::<JsonSpec, Error>(
                json_model(x),
            ),
            Err(e) => spec_value_field(json_model(*v), key@) == Err::<JsonSpec, Error>(e),
        },
{
    match json_get(v, key) {
        Some(x) => Ok(x.clone()),
        None => Err(Error::DecodeError),
    }
}

fn field_opt_str(v: &serde_json::Value, key: &str) -> (r: Result<Option<String>, Error>)
    ensures
        match r {
            Ok(s) => spec_opt_str_field(json_model(*v), key@) == Ok::<Option<Seq<char>>, Error>(
                match s {
                    Some(x) => Some(x@),
                    None => None,
                },
            ),
            Err(e) => spec_opt_str_field(json_model(*v), key@) == Err::<Option<Seq<char>>, Error>(
                e,
            ),
        },
{
    match json_get(v, key) {
        None => Ok(None),
        Some(x) => {
            if json_is_null(x) {
                Ok(None)
            } else {
                match json_as_str(x) {
                    Some(s) => Ok(Some(s.to_owned())),
                    None => Err(Error::DecodeError),
                }
            }
        },
    }
}

fn field_str_list(v: &serde_json::Value, key: &str) -> (r: Result<Vec<String>, Error>)
    ensures
        match r {
            Ok(xs) => spec_str_list_field(json_model(*v), key@) == Ok::<Seq<Seq<char>>, Error>(
                xs.deep_view(),
            ),
            Err(e) => spec_str_list_field(json_model(*v), key@) == Err::<Seq<Seq<char>>, Error>(
                e,
            ),
        },
{
    let arr = match json_get(v, key) {
        Some(x) => x,
        None => {
            return Err(Error::DecodeError);
        },
    };
    let items = match json_as_array(arr) {
        Some(a) => a,
        None => {
            return Err(Error::DecodeError);
        },
    };
    let ghost s: Seq<JsonSpec> = items@.map_values(|e: serde_json::Value| json_model(e));
    let mut out: Vec<String> = Vec::new();
    let mut idx: usize = 0;
    while idx < items.len()
        invariant
            s == items@.map_values(|e: serde_json::Value| json_model(e)),
            spec_field(json_model(*v), key@) == Some(JsonSpec::Arr(s)),
            idx <= items.len(),
            s.len() == items.len(),
            out.len() == idx,
            forall|j: int| 0 <= j < idx ==> #[trigger] s[j] is Str,
            forall|j: int| 0 <= j < idx ==> (#[trigger] out@[j])@ == s[j]->Str_0,
        decreases items.len() - idx,
    {
        match json_as_str(&items[idx]) {
            Some(st) => {
                out.push(st.to_owned());
            },
            None => {
                proof {
                    assert(!(s[idx as int] is Str));
                }
                return Err(Error::DecodeError);
            },
        }
        idx += 1;
    }
    proof {
        assert(all_strs(s));
        assert(out.deep_view() =~= strs_of(s));
    }
    Ok(out)
}

fn field_value_list(v: &serde_json::Value, key: &str) -> (r: Result<Vec<serde_json::Value>, Error>)
    ensures
        match r {
            Ok(xs) => spec_value_list_field(json_model(*v), key@) == Ok::<Seq<JsonSpec>, Error>(
                xs@.map_values(|e: serde_json::Value| json_model(e)),
            ),
            Err(e) => spec_value_list_field(json_model(*v), key@) == Err::<Seq<JsonSpec>, Error>(
                e,
            ),
        },
{
    let arr = match json_get(v, key) {
        Some(x) => x,
        None => {
            return Err(Error::DecodeError);
        },
    };
    let items = match json_as_array(arr) {
        Some(a) => a,
        None => {
            return Err(Error::DecodeError);
        },
    };
    let ghost s: Seq<JsonSpec> = items@.map_values(|e: serde_json::Value| json_model(e));
    let mut out: Vec<serde_json::Value> = Vec::new();
    let mut idx: usize = 0;
    while idx < items.len()
        invariant
            s == items@.map_values(|e: serde_json::Value| json_model(e)),
            spec_field(json_model(*v), key@) == Some(JsonSpec::Arr(s)),
            idx <= items.len(),
            s.len() == items.len(),
            out.len() == idx,
            forall|j: int| 0 <= j < idx ==> json_model(#[trigger] out@[j]) == s[j],
        decreases items.len() - idx,
    {
        out.push(items[idx].clone());
        idx += 1;
    }
    proof {
        assert(out@.map_values(|e: serde_json::Value| json_model(e)) =~= s);
    }
    Ok(out)
}

pub open spec fn spec_package(j: JsonSpec) -> Result<PackageView, Error> {
    if spec_str_field(j, "pkgname"@) is Ok && spec_str_field(j, "pkgbase"@) is Ok && spec_str_field(j, "repo"@) is Ok && spec_str_field(j, "arch"@) is Ok && spec_str_field(j, "pkgver"@) is Ok && spec_str_field(j, "pkgrel"@) is Ok && spec_i64_field(j, "epoch"@) is Ok && spec_str_field(j, "pkgdesc"@) is Ok && spec_str_field(j, "url"@) is Ok && spec_str_field(j, "filename"@) is Ok && spec_i64_field(j, "compressed_size"@) is Ok && spec_i64_field(j, "installed_size"@) is Ok && spec_str_field(j, "build_date"@) is Ok && spec_str_field(j, "last_update"@) is Ok && spec_opt_str_field(j, "flag_date"@) is Ok && spec_str_list_field(j, "maintainers"@) is Ok && spec_str_field(j, "packager"@) is Ok && spec_str_list_field(j, "groups"@) is Ok && spec_str_list_field(j, "licenses"@) is Ok && spec_str_list_field(j, "conflicts"@) is Ok && spec_str_list_field(j, "provides"@) is Ok && spec_value_list_field(j, "replaces"@) is Ok && spec_str_list_field(j, "depends"@) is Ok && spec_str_list_field(j, "optdepends"@) is Ok && spec_str_list_field(j, "makedepends"@) is Ok && spec_str_list_field(j, "checkdepends"@) is Ok {
        Ok(
            PackageView {
            pkgname: spec_str_field(j, "pkgname"@)->Ok_0,
            pkgbase: spec_str_field(j, "pkgbase"@)->Ok_0,
            repo: spec_str_field(j, "repo"@)->Ok_0,
            arch: spec_str_field(j, "arch"@)->Ok_0,
            pkgver: spec_str_field(j, "pkgver"@)->Ok_0,
            pkgrel: spec_str_field(j, "pkgrel"@)->Ok_0,
            epoch: spec_i64_field(j, "epoch"@)->Ok_0,
            pkgdesc: spec_str_field(j, "pkgdesc"@)->Ok_0,
            url: spec_str_field(j, "url"@)->Ok_0,
            filename: spec_str_field(j, "filename"@)->Ok_0,
            compressed_size: spec_i64_field(j, "compressed_size"@)->Ok_0,
            installed_size: spec_i64_field(j, "installed_size"@)->Ok_0,
            build_date: spec_str_field(j, "build_date"@)->Ok_0,
            last_update: spec_str_field(j, "last_update"@)->Ok_0,
            flag_date: spec_opt_str_field(j, "flag_date"@)->Ok_0,
            maintainers: spec_str_list_field(j, "maintainers"@)->Ok_0,
            packager: spec_str_field(j, "packager"@)->Ok_0,
            groups: spec_str_list_field(j, "groups"@)->Ok_0,
            licenses: spec_str_list_field(j, "licenses"@)->Ok_0,
            conflicts: spec_str_list_field(j, "conflicts"@)->Ok_0,
            provides: spec_str_list_field(j, "provides"@)->Ok_0,
            replaces: spec_value_list_field(j, "replaces"@)->Ok_0,
            depends: spec_str_list_field(j, "depends"@)->Ok_0,
            optdepends: spec_str_list_field(j, "optdepends"@)->Ok_0,
            makedepends: spec_str_list_field(j, "makedepends"@)->Ok_0,
            checkdepends: spec_str_list_field(j, "checkdepends"@)->Ok_0,
            },
        )
    } else {
        Err(Error::DecodeError)
    }
}

#[verifier::rlimit(100)]
fn decode_package_value(v: &serde_json::Value) -> (r: Result<Package, Error>)
    ensures
        match r {
            Ok(p) => spec_package(json_model(*v)) == Ok::<PackageView, Error>(p@),
            Err(e) => spec_package(json_model(*v)) == Err::<PackageView, Error>(e),
        },
{
    let pkgname = match field_str(v, "pkgname") {
        Ok(x) => x,
        Err(e) => {
            return Err(e);
        },
    };
    let pkgbase = match field_str(v, "pkgbase") {
        Ok(x) => x,
        Err(e) => {
            return Err(e);
        },
    };
    let repo = match field_str(v, "repo") {
        Ok(x) => x,
        Err(e) => {
            return Err(e);
        },
    };
    let arch = match field_str(v, "arch") {
        Ok(x) => x,
        Err(e) => {
            return Err(e);
        },
    };
    let pkgver = match field_str(v, "pkgver") {
        Ok(x) => x,
        Err(e) => {
            return Err(e);
        },
    };
    let pkgrel = match field_str(v, "pkgrel") {
        Ok(x) => x,
        Err(e) => {
            return Err(e);
        },
    };
    let epoch = match field_i64(v, "epoch") {
        Ok(x) => x,
        Err(e) => {
            return Err(e);
        },
    };
    let pkgdesc = match field_str(v, "pkgdesc") {
        Ok(x) => x,
        Err(e) => {
            return Err(e);
        },
    };
    let url = match field_str(v, "url") {
        Ok(x) => x,
        Err(e) => {
            return Err(e);
        },
    };
    let filename = match field_str(v, "filename") {
        Ok(x) => x,
        Err(e) => {
            return Err(e);
        },
    };
    let compressed_size = match field_i64(v, "compressed_size") {
        Ok(x) => x,
        Err(e) => {
            return Err(e);
        },
    };
    let installed_size = match field_i64(v, "installed_size") {
        Ok(x) => x,
        Err(e) => {
            return Err(e);
        },
    };
    let build_date = match field_str(v, "build_date") {
        Ok(x) => x,
        Err(e) => {
            return Err(e);
        },
    };
    let last_update = match field_str(v, "last_update") {
        Ok(x) => x,
        Err(e) => {
            return Err(e);
        },
    };
    let flag_date = match field_opt_str(v, "flag_date") {
        Ok(x) => x,
        Err(e) => {
            return Err(e);
        },
    };
    let maintainers = match field_str_list(v, "maintainers") {
        Ok(x) => x,
        Err(e) => {
            return Err(e);
        },
    };
    let packager = match field_str(v, "packager") {
        Ok(x) => x,
        Err(e) => {
            return Err(e);
        },
    };
    let groups = match field_str_list(v, "groups") {
        Ok(x) => x,
        Err(e) => {
            return Err(e);
        },
    };
    let licenses = match field_str_list(v, "licenses") {
        Ok(x) => x,
        Err(e) => {
            return Err(e);
        },
    };
    let conflicts = match field_str_list(v, "conflicts") {
        Ok(x) => x,
        Err(e) => {
            return Err(e);
        },
    };
    let provides = match field_str_list(v, "provides") {
        Ok(x) => x,
        Err(e) => {
            return Err(e);
        },
    };
    let replaces = match field_value_list(v, "replaces") {
        Ok(x) => x,
        Err(e) => {
            return Err(e);
        },
    };
    let depends = match field_str_list(v, "depends") {
        Ok(x) => x,
        Err(e) => {
            return Err(e);
        },
    };
    let optdepends = match field_str_list(v, "optdepends") {
        Ok(x) => x,
        Err(e) => {
            return Err(e);
        },
    };
    let makedepends = match field_str_list(v, "makedepends") {
        Ok(x) => x,
        Err(e) => {
            return Err(e);
        },
    };
    let checkdepends = match field_str_list(v, "checkdepends") {
        Ok(x) => x,
        Err(e) => {
            return Err(e);
        },
    };
    let p = Package {
        pkgname,
        pkgbase,
        repo,
        arch,
        pkgver,
        pkgrel,
        epoch,
        pkgdesc,
        url,
        filename,
        compressed_size,
        installed_size,
        build_date,
        last_update,
        flag_date,
        maintainers,
        packager,
        groups,
        licenses,
        conflicts,
        provides,
        replaces,
        depends,
        optdepends,
        makedepends,
        checkdepends,
    };
    proof {
        assert(p@ =~= spec_package(json_model(*v))->Ok_0);
    }
    Ok(p)
}

pub open spec fn spec_package_details(j: JsonSpec) -> Result<PackageDetailsView, Error> {
    if spec_str_field(j, "pkgname"@) is Ok && spec_str_field(j, "pkgbase"@) is Ok && spec_str_field(j, "repo"@) is Ok && spec_str_field(j, "arch"@) is Ok && spec_str_field(j, "pkgver"@) is Ok && spec_str_field(j, "pkgrel"@) is Ok && spec_i64_field(j, "epoch"@) is Ok && spec_str_field(j, "pkgdesc"@) is Ok && spec_str_field(j, "url"@) is Ok && spec_str_field(j, "filename"@) is Ok && spec_i64_field(j, "compressed_size"@) is Ok && spec_i64_field(j, "installed_size"@) is Ok && spec_str_field(j, "build_date"@) is Ok && spec_str_field(j, "last_update"@) is Ok && spec_value_field(j, "flag_date"@) is Ok && spec_str_list_field(j, "maintainers"@) is Ok && spec_str_field(j, "packager"@) is Ok && spec_value_list_field(j, "groups"@) is Ok && spec_str_list_field(j, "licenses"@) is Ok && spec_value_list_field(j, "conflicts"@) is Ok && spec_value_list_field(j, "provides"@) is Ok && spec_value_list_field(j, "replaces"@) is Ok && spec_str_list_field(j, "depends"@) is Ok && spec_value_list_field(j, "optdepends"@) is Ok && spec_value_list_field(j, "makedepends"@) is Ok && spec_value_list_field(j, "checkdepends"@) is Ok {
        Ok(
            PackageDetailsView {
            pkgname: spec_str_field(j, "pkgname"@)->Ok_0,
            pkgbase: spec_str_field(j, "pkgbase"@)->Ok_0,
            repo: spec_str_field(j, "repo"@)->Ok_0,
            arch: spec_str_field(j, "arch"@)->Ok_0,
            pkgver: spec_str_field(j, "pkgver"@)->Ok_0,
            pkgrel: spec_str_field(j, "pkgrel"@)->Ok_0,
            epoch: spec_i64_field(j, "epoch"@)->Ok_0,
            pkgdesc: spec_str_field(j, "pkgdesc"@)->Ok_0,
            url: spec_str_field(j, "url"@)->Ok_0,
            filename: spec_str_field(j, "filename"@)->Ok_0,
            compressed_size: spec_i64_field(j, "compressed_size"@)->Ok_0,
            installed_size: spec_i64_field(j, "installed_size"@)->Ok_0,
            build_date: spec_str_field(j, "build_date"@)->Ok_0,
            last_update: spec_str_field(j, "last_update"@)->Ok_0,
            flag_date: spec_value_field(j, "flag_date"@)->Ok_0,
            maintainers: spec_str_list_field(j, "maintainers"@)->Ok_0,
            packager: spec_str_field(j, "packager"@)->Ok_0,
            groups: spec_value_list_field(j, "groups"@)->Ok_0,
            licenses: spec_str_list_field(j, "licenses"@)->Ok_0,
            conflicts: spec_value_list_field(j, "conflicts"@)->Ok_0,
            provides: spec_value_list_field(j, "provides"@)->Ok_0,
            replaces: spec_value_list_field(j, "replaces"@)->Ok_0,
            depends: spec_str_list_field(j, "depends"@)->Ok_0,
            optdepends: spec_value_list_field(j, "optdepends"@)->Ok_0,
            makedepends: spec_value_list_field(j, "makedepends"@)->Ok_0,
            checkdepends: spec_value_list_field(j, "checkdepends"@)->Ok_0,
            },
        )
    } else {
        Err(Error::DecodeError)
    }
}

#[verifier::rlimit(100)]
fn decode_details_value(v: &serde_json::Value) -> (r: Result<PackageDetails, Error>)
    ensures
        match r {
            Ok(p) => spec_package_details(json_model(*v)) == Ok::<PackageDetailsView, Error>(p@),
            Err(e) => spec_package_details(json_model(*v)) == Err::<PackageDetailsView, Error>(e),
        },
{
    let pkgname = match field_str(v, "pkgname") {
        Ok(x) => x,
        Err(e) => {
            return Err(e);
        },
    };
    let pkgbase = match field_str(v, "pkgbase") {
        Ok(x) => x,
        Err(e) => {
            return Err(e);
        },
    };
    let repo = match field_str(v, "repo") {
        Ok(x) => x,
        Err(e) => {
            return Err(e);
        },
    };
    let arch = match field_str(v, "arch") {
        Ok(x) => x,
        Err(e) => {
            return Err(e);
        },
    };
    let pkgver = match field_str(v, "pkgver") {
        Ok(x) => x,
        Err(e) => {
            return Err(e);
        },
    };
    let pkgrel = match field_str(v, "pkgrel") {
        Ok(x) => x,
        Err(e) => {
            return Err(e);
        },
    };
    let epoch = match field_i64(v, "epoch") {
        Ok(x) => x,
        Err(e) => {
            return Err(e);
        },
    };
    let pkgdesc = match field_str(v, "pkgdesc") {
        Ok(x) => x,
        Err(e) => {
            return Err(e);
        },
    };
    let url = match field_str(v, "url") {
        Ok(x) => x,
        Err(e) => {
            return Err(e);
        },
    };
    let filename = match field_str(v, "filename") {
        Ok(x) => x,
        Err(e) => {
            return Err(e);
        },
    };
    let compressed_size = match field_i64(v, "compressed_size") {
        Ok(x) => x,
        Err(e) => {
            return Err(e);
        },
    };
    let installed_size = match field_i64(v, "installed_size") {
        Ok(x) => x,
        Err(e) => {
            return Err(e);
        },
    };
    let build_date = match field_str(v, "build_date") {
        Ok(x) => x,
        Err(e) => {
            return Err(e);
        },
    };
    let last_update = match field_str(v, "last_update") {
        Ok(x) => x,
        Err(e) => {
            return Err(e);
        },
    };
    let flag_date = match field_value(v, "flag_date") {
        Ok(x) => x,
        Err(e) => {
            return Err(e);
        },
    };
    let maintainers = match field_str_list(v, "maintainers") {
        Ok(x) => x,
        Err(e) => {
            return Err(e);
        },
    };
    let packager = match field_str(v, "packager") {
        Ok(x) => x,
        Err(e) => {
            return Err(e);
        },
    };
    let groups = match field_value_list(v, "groups") {
        Ok(x) => x,
        Err(e) => {
            return Err(e);
        },
    };
    let licenses = match field_str_list(v, "licenses") {
        Ok(x) => x,
        Err(e) => {
            return Err(e);
        },
    };
    let conflicts = match field_value_list(v, "conflicts") {
        Ok(x) => x,
        Err(e) => {
            return Err(e);
        },
    };
    let provides = match field_value_list(v, "provides") {
        Ok(x) => x,
        Err(e) => {
            return Err(e);
        },
    };
    let replaces = match field_value_list(v, "replaces") {
        Ok(x) => x,
        Err(e) => {
            return Err(e);
        },
    };
    let depends = match field_str_list(v, "depends") {
        Ok(x) => x,
        Err(e) => {
            return Err(e);
        },
    };
    let optdepends = match field_value_list(v, "optdepends") {
        Ok(x) => x,
        Err(e) => {
            return Err(e);
        },
    };
    let makedepends = match field_value_list(v, "makedepends") {
        Ok(x) => x,
        Err(e) => {
            return Err(e);
        },
    };
    let checkdepends = match field_value_list(v, "checkdepends") {
        Ok(x) => x,
        Err(e) => {
            return Err(e);
        },
    };
    let p = PackageDetails {
        pkgname,
        pkgbase,
        repo,
        arch,
        pkgver,
        pkgrel,
        epoch,
        pkgdesc,
        url,
        filename,
        compressed_size,
        installed_size,
        build_date,
        last_update,
        flag_date,
        maintainers,
        packager,
        groups,
        licenses,
        conflicts,
        provides,
        replaces,
        depends,
        optdepends,
        makedepends,
        checkdepends,
    };
    proof {
        assert(p@ =~= spec_package_details(json_model(*v))->Ok_0);
    }
    Ok(p)
}

pub open spec fn spec_internal_files(j: JsonSpec) -> Result<PackageInternalFilesView, Error> {
    if spec_str_field(j, "pkgname"@) is Ok && spec_str_field(j, "repo"@) is Ok && spec_str_field(j, "arch"@) is Ok && spec_str_field(j, "pkg_last_update"@) is Ok && spec_str_field(j, "files_last_update"@) is Ok && spec_i64_field(j, "files_count"@) is Ok && spec_i64_field(j, "dir_count"@) is Ok && spec_str_list_field(j, "files"@) is Ok {
        Ok(
            PackageInternalFilesView {
            pkgname: spec_str_field(j, "pkgname"@)->Ok_0,
            repo: spec_str_field(j, "repo"@)->Ok_0,
            arch: spec_str_field(j, "arch"@)->Ok_0,
            pkg_last_update: spec_str_field(j, "pkg_last_update"@)->Ok_0,
            files_last_update: spec_str_field(j, "files_last_update"@)->Ok_0,
            files_count: spec_i64_field(j, "files_count"@)->Ok_0,
            dir_count: spec_i64_field(j, "dir_count"@)->Ok_0,
            files: spec_str_list_field(j, "files"@)->Ok_0,
            },
        )
    } else {
        Err(Error::DecodeError)
    }
}

#[verifier::rlimit(100)]
fn decode_files_value(v: &serde_json::Value) -> (r: Result<PackageInternalFiles, Error>)
    ensures
        match r {
            Ok(p) => spec_internal_files(json_model(*v)) == Ok::<PackageInternalFilesView, Error>(p@),
            Err(e) => spec_internal_files(json_model(*v)) == Err::<PackageInternalFilesView, Error>(e),
        },
{
    let pkgname = match field_str(v, "pkgname") {
        Ok(x) => x,
        Err(e) => {
            return Err(e);
        },
    };
    let repo = match field_str(v, "repo") {
        Ok(x) => x,
        Err(e) => {
            return Err(e);
        },
    };
    let arch = match field_str(v, "arch") {
        Ok(x) => x,
        Err(e) => {
            return Err(e);
        },
    };
    let pkg_last_update = match field_str(v, "pkg_last_update") {
        Ok(x) => x,
        Err(e) => {
            return Err(e);
        },
    };
    let files_last_update = match field_str(v, "files_last_update") {
        Ok(x) => x,
        Err(e) => {
            return Err(e);
        },
    };
    let files_count = match field_i64(v, "files_count") {
        Ok(x) => x,
        Err(e) => {
            return Err(e);
        },
    };
    let dir_count = match field_i64(v, "dir_count") {
        Ok(x) => x,
        Err(e) => {
            return Err(e);
        },
    };
    let files = match field_str_list(v, "files") {
        Ok(x) => x,
        Err(e) => {
            return Err(e);
        },
    };
    let p = PackageInternalFiles {
        pkgname,
        repo,
        arch,
        pkg_last_update,
        files_last_update,
        files_count,
        dir_count,
        files,
    };
    proof {
        assert(p@ =~= spec_internal_files(json_model(*v))->Ok_0);
    }
    Ok(p)
}


/// Every element of the `results` array decodes as a package row.
pub open spec fn all_pkgs_ok(s: Seq<JsonSpec>) -> bool {
    forall|i: int| 0 <= i < s.len() ==> spec_package(#[trigger] s[i]) is Ok
}

pub open spec fn pkgs_of(s: Seq<JsonSpec>) -> Seq<PackageView> {
    s.map_values(|e: JsonSpec| spec_package(e)->Ok_0)
}

/// The mandatory `results` field: an array each of whose elements is a
/// well-formed package row.
pub open spec fn spec_results_field(j: JsonSpec, k: Seq<char>) -> Result<Seq<PackageView>, Error> {
    match spec_field(j, k) {
        Some(JsonSpec::Arr(s)) => if all_pkgs_ok(s) {
            Ok(pkgs_of(s))
        } else {
            Err(Error::DecodeError)
        },
        _ => Err(Error::DecodeError),
    }
}

/// One page of a search response: the scalar page fields plus the decoded
/// rows, in the order the response lists them.
pub open spec fn spec_search_result(j: JsonSpec) -> Result<PackageSearchResultView, Error> {
    if spec_i64_field(j, "version"@) is Ok && spec_i64_field(j, "limit"@) is Ok && spec_bool_field(
        j,
        "valid"@,
    ) is Ok && spec_results_field(j, "results"@) is Ok && spec_i64_field(j, "num_pages"@) is Ok
        && spec_i64_field(j, "page"@) is Ok {
        Ok(
            PackageSearchResultView {
                version: spec_i64_field(j, "version"@)->Ok_0,
                limit: spec_i64_field(j, "limit"@)->Ok_0,
                valid: spec_bool_field(j, "valid"@)->Ok_0,
                results: spec_results_field(j, "results"@)->Ok_0,
                num_pages: spec_i64_field(j, "num_pages"@)->Ok_0,
                page: spec_i64_field(j, "page"@)->Ok_0,
            },
        )
    } else {
        Err(Error::DecodeError)
    }
}

fn field_results(v: &serde_json::Value, key: &str) -> (r: Result<Vec<Package>, Error>)
    ensures
        match r {
            Ok(xs) => spec_results_field(json_model(*v), key@) == Ok::<Seq<PackageView>, Error>(
                xs@.map_values(|p: Package| p@),
            ),
            Err(e) => spec_results_field(json_model(*v), key@) == Err::<Seq<PackageView>, Error>(
                e,
            ),
        },
{
    let arr = match json_get(v, key) {
        Some(x) => x,
        None => {
            return Err(Error::DecodeError);
        },
    };
    let items = match json_as_array(arr) {
        Some(a) => a,
        None => {
            return Err(Error::DecodeError);
        },
    };
    let ghost s: Seq<JsonSpec> = items@.map_values(|e: serde_json::Value| json_model(e));
    let mut out: Vec<Package> = Vec::new();
    let mut idx: usize = 0;
    while idx < items.len()
        invariant
            s == items@.map_values(|e: serde_json::Value| json_model(e)),
            spec_field(json_model(*v), key@) == Some(JsonSpec::Arr(s)),
            idx <= items.len(),
            s.len() == items.len(),
            out.len() == idx,
            forall|j: int| 0 <= j < idx ==> spec_package(#[trigger] s[j]) is Ok,
            forall|j: int| 0 <= j < idx ==> (#[trigger] out@[j])@ == spec_package(s[j])->Ok_0,
        decreases items.len() - idx,
    {
        match decode_package_value(&items[idx]) {
            Ok(p) => {
                out.push(p);
            },
            Err(e) => {
                proof {
                    assert(!(spec_package(s[idx as int]) is Ok));
                }
                return Err(e);
            },
        }
        idx += 1;
    }
    proof {
        assert(out@.map_values(|p: Package| p@) =~= pkgs_of(s));
    }
    Ok(out)
}

fn decode_search_result_value(v: &serde_json::Value) -> (r: Result<PackageSearchResult, Error>)
    ensures
        match r {
            Ok(p) => spec_search_result(json_model(*v)) == Ok::<PackageSearchResultView, Error>(
                p@,
            ),
            Err(e) => spec_search_result(json_model(*v)) == Err::<PackageSearchResultView, Error>(
                e,
            ),
        },
{
    let version = match field_i64(v, "version") {
        Ok(x) => x,
        Err(e) => {
            return Err(e);
        },
    };
    let limit = match field_i64(v, "limit") {
        Ok(x) => x,
        Err(e) => {
            return Err(e);
        },
    };
    let valid = match field_bool(v, "valid") {
        Ok(x) => x,
        Err(e) => {
            return Err(e);
        },
    };
    let results = match field_results(v, "results") {
        Ok(x) => x,
        Err(e) => {
            return Err(e);
        },
    };
    let num_pages = match field_i64(v, "num_pages") {
        Ok(x) => x,
        Err(e) => {
            return Err(e);
        },
    };
    let page = match field_i64(v, "page") {
        Ok(x) => x,
        Err(e) => {
            return Err(e);
        },
    };
    let p = PackageSearchResult { version, limit, valid, results, num_pages, page };
    proof {
        assert(p@ =~= spec_search_result(json_model(*v))->Ok_0);
    }
    Ok(p)
}

/// What decoding a detail-response body comes to: parse the text, then
/// read the package-details schema.
pub open spec fn spec_details_doc(s: Seq<char>) -> Result<PackageDetailsView, Error> {
    match json_parse(s) {
        Some(j) => spec_package_details(j),
        None => Err(Error::DecodeError),
    }
}

/// Decodes the body of a package detail response.
pub fn decode_package_details(body: &str) -> (r: Result<PackageDetails, Error>)
    ensures
        match r {
            Ok(p) => spec_details_doc(body@) == Ok::<PackageDetailsView, Error>(p@),
            Err(e) => spec_details_doc(body@) == Err::<PackageDetailsView, Error>(e),
        },
{
    match parse_json(body) {
        Some(v) => decode_details_value(&v),
        None => Err(Error::DecodeError),
    }
}

/// What decoding a file-listing body comes to.
pub open spec fn spec_files_doc(s: Seq<char>) -> Result<PackageInternalFilesView, Error> {
    match json_parse(s) {
        Some(j) => spec_internal_files(j),
        None => Err(Error::DecodeError),
    }
}

/// Decodes the body of a package file-listing response.
pub fn decode_package_internal_files(body: &str) -> (r: Result<PackageInternalFiles, Error>)
    ensures
        match r {
            Ok(p) => spec_files_doc(body@) == Ok::<PackageInternalFilesView, Error>(p@),
            Err(e) => spec_files_doc(body@) == Err::<PackageInternalFilesView, Error>(e),
        },
{
    match parse_json(body) {
        Some(v) => decode_files_value(&v),
        None => Err(Error::DecodeError),
    }
}

/// What decoding a search-response body comes to.
pub open spec fn spec_search_doc(s: Seq<char>) -> Result<PackageSearchResultView, Error> {
    match json_parse(s) {
        Some(j) => spec_search_result(j),
        None => Err(Error::DecodeError),
    }
}

/// Decodes the body of a search response.
pub fn decode_package_search_result(body: &str) -> (r: Result<PackageSearchResult, Error>)
    ensures
        match r {
            Ok(p) => spec_search_doc(body@) == Ok::<PackageSearchResultView, Error>(p@),
            Err(e) => spec_search_doc(body@) == Err::<PackageSearchResultView, Error>(e),
        },
{
    match parse_json(body) {
        Some(v) => decode_search_result_value(&v),
        None => Err(Error::DecodeError),
    }
}

/// Law: a response row that lacks the mandatory `pkgname` field decodes to
/// an error, never to a partially populated row.
pub proof fn lemma_missing_field_rejected(j: JsonSpec)
    requires
        spec_field(j, "pkgname"@) is None,
    ensures
        spec_package(j) == Err::<PackageView, Error>(Error::DecodeError),
        spec_package_details(j) == Err::<PackageDetailsView, Error>(Error::DecodeError),
        spec_internal_files(j) == Err::<PackageInternalFilesView, Error>(Error::DecodeError),
{
}

/// Law: a decoded search page carries exactly the rows of the response's
/// `results` array, each decoded in place, in the order the response lists
/// them.
pub proof fn lemma_search_results_preserved(j: JsonSpec, s: Seq<JsonSpec>)
    requires
        spec_field(j, "results"@) == Some(JsonSpec::Arr(s)),
        spec_search_result(j) is Ok,
    ensures
        spec_search_result(j)->Ok_0.results.len() == s.len(),
        forall|i: int| 0 <= i < s.len() ==> spec_search_result(j)->Ok_0.results[i] == spec_package(
            #[trigger] s[i],
        )->Ok_0,
{
}

} // verus!
