use vstd::prelude::*;

use crate::types::{arch_label, flagged_label, repo_label, Arch, IsFlagged, Repo};

verus! {

/// Parameters of a package search. Every field is independently optional;
/// a field left unset is omitted from the request entirely.
#[derive(Debug, Clone, PartialEq)]
pub struct PackageSearchParam {
    pub query: Option<String>,
    pub name: Option<String>,
    pub description: Option<String>,
    pub repo: Option<Repo>,
    pub arch: Option<Arch>,
    pub maintainer: Option<String>,
    pub packager: Option<String>,
    pub flagged: Option<IsFlagged>,
}

/// Assembles a `PackageSearchParam` field by field; every field defaults to
/// unset, so `build` always succeeds.
#[derive(Debug, Clone)]
pub struct PackageSearchParamBuilder {
    pub query: Option<String>,
    pub name: Option<String>,
    pub description: Option<String>,
    pub repo: Option<Repo>,
    pub arch: Option<Arch>,
    pub maintainer: Option<String>,
    pub packager: Option<String>,
    pub flagged: Option<IsFlagged>,
}

impl Default for PackageSearchParamBuilder {
    fn default() -> (r: Self)
        ensures
            r.query is None,
            r.name is None,
            r.description is None,
            r.repo is None,
            r.arch is None,
            r.maintainer is None,
            r.packager is None,
            r.flagged is None,
    {
        PackageSearchParamBuilder {
            query: None,
            name: None,
            description: None,
            repo: None,
            arch: None,
            maintainer: None,
            packager: None,
            flagged: None,
        }
    }
}

impl PackageSearchParamBuilder {
    pub fn query(self, value: &str) -> (r: Self)
        ensures
            r.query matches Some(v) && v@ == value@,
            r == (PackageSearchParamBuilder { query: r.query, ..self }),
    {
        PackageSearchParamBuilder { query: Some(value.to_owned()), ..self }
    }

    pub fn name(self, value: &str) -> (r: Self)
        ensures
            r.name matches Some(v) && v@ == value@,
            r == (PackageSearchParamBuilder { name: r.name, ..self }),
    {
        PackageSearchParamBuilder { name: Some(value.to_owned()), ..self }
    }

    pub fn description(self, value: &str) -> (r: Self)
        ensures
            r.description matches Some(v) && v@ == value@,
            r == (PackageSearchParamBuilder { description: r.description, ..self }),
    {
        PackageSearchParamBuilder { description: Some(value.to_owned()), ..self }
    }

    pub fn repo(self, value: Repo) -> (r: Self)
        ensures
            r == (PackageSearchParamBuilder { repo: Some(value), ..self }),
    {
        PackageSearchParamBuilder { repo: Some(value), ..self }
    }

    pub fn arch(self, value: Arch) -> (r: Self)
        ensures
            r == (PackageSearchParamBuilder { arch: Some(value), ..self }),
    {
        PackageSearchParamBuilder { arch: Some(value), ..self }
    }

    pub fn maintainer(self, value: &str) -> (r: Self)
        ensures
            r.maintainer matches Some(v) && v@ == value@,
            r == (PackageSearchParamBuilder { maintainer: r.maintainer, ..self }),
    {
        PackageSearchParamBuilder { maintainer: Some(value.to_owned()), ..self }
    }

    pub fn packager(self, value: &str) -> (r: Self)
        ensures
            r.packager matches Some(v) && v@ == value@,
            r == (PackageSearchParamBuilder { packager: r.packager, ..self }),
    {
        PackageSearchParamBuilder { packager: Some(value.to_owned()), ..self }
    }

    pub fn flagged(self, value: IsFlagged) -> (r: Self)
        ensures
            r == (PackageSearchParamBuilder { flagged: Some(value), ..self }),
    {
        PackageSearchParamBuilder { flagged: Some(value), ..self }
    }

    pub fn build(self) -> (r: Option<PackageSearchParam>)
        ensures
            r == Some(
                PackageSearchParam {
                    query: self.query,
                    name: self.name,
                    description: self.description,
                    repo: self.repo,
                    arch: self.arch,
                    maintainer: self.maintainer,
                    packager: self.packager,
                    flagged: self.flagged,
                },
            ),
    {
        Some(
            PackageSearchParam {
                query: self.query,
                name: self.name,
                description: self.description,
                repo: self.repo,
                arch: self.arch,
                maintainer: self.maintainer,
                packager: self.packager,
                flagged: self.flagged,
            },
        )
    }
}

/// The entry a single optional field contributes to the query mapping:
/// one pair when set, nothing when unset.
pub open spec fn opt_entry(k: Seq<char>, v: Option<Seq<char>>) -> Seq<(Seq<char>, Seq<char>)> {
    match v {
        Some(s) => seq![(k, s)],
        None => Seq::empty(),
    }
}

pub open spec fn opt_view(v: Option<String>) -> Option<Seq<char>> {
    match v {
        Some(s) => Some(s@),
        None => None,
    }
}

/// The whole query mapping of a search, one entry per set field, in the
/// fixed key order q, name, description, repo, arch, maintainer, packager,
/// flagged. Enum-valued fields contribute their exact label.
pub open spec fn query_pairs(p: PackageSearchParam) -> Seq<(Seq<char>, Seq<char>)> {
    opt_entry("q"@, opt_view(p.query)) + opt_entry("name"@, opt_view(p.name)) + opt_entry(
        "description"@,
        opt_view(p.description),
    ) + opt_entry(
        "repo"@,
        match p.repo {
            Some(r) => Some(repo_label(r)),
            None => None,
        },
    ) + opt_entry(
        "arch"@,
        match p.arch {
            Some(a) => Some(arch_label(a)),
            None => None,
        },
    ) + opt_entry("maintainer"@, opt_view(p.maintainer)) + opt_entry(
        "packager"@,
        opt_view(p.packager),
    ) + opt_entry(
        "flagged"@,
        match p.flagged {
            Some(f) => Some(flagged_label(f)),
            None => None,
        },
    )
}

pub open spec fn pair_view(pr: (String, String)) -> (Seq<char>, Seq<char>) {
    (pr.0@, pr.1@)
}

/// The key-value pairs a built query carries, as sequences of characters.
pub open spec fn pairs_view(s: Seq<(String, String)>) -> Seq<(Seq<char>, Seq<char>)> {
    s.map_values(|pr: (String, String)| pair_view(pr))
}

/// Appends the entry of one optional field: the key-value pair when the
/// field is set, nothing when it is unset.
fn push_opt_pair(q: &mut Vec<(String, String)>, key: &str, v: Option<String>)
    ensures
        pairs_view(final (q)@) == pairs_view(old(q)@) + opt_entry(key@, opt_view(v)),
{
    let ghost before = q@;
    match v {
        Some(s) => {
            q.push((key.to_owned(), s));
            proof {
                assert(pairs_view(q@) =~= pairs_view(before) + opt_entry(key@, opt_view(v)));
            }
        },
        None => {
            proof {
                assert(pairs_view(q@) =~= pairs_view(before) + opt_entry(key@, opt_view(v)));
            }
        },
    }
}

/// Builds the query mapping of the search endpoint: exactly one key-value
/// pair per set field of the parameter, nothing for unset fields.
pub fn build_query_param(param: PackageSearchParam) -> (r: Vec<(String, String)>)
    ensures
        pairs_view(r@) == query_pairs(param),
{
    let ghost p = param;
    let mut q: Vec<(String, String)> = Vec::new();

    push_opt_pair(&mut q, "q", param.query);
    push_opt_pair(&mut q, "name", param.name);
    push_opt_pair(&mut q, "description", param.description);
    let repo_value = match param.repo {
        Some(r) => Some(r.to_query_param_value().to_owned()),
        None => None,
    };
    proof {
        assert(opt_view(repo_value) == (match p.repo {
            Some(r) => Some(repo_label(r)),
            None => None,
        }));
    }
    push_opt_pair(&mut q, "repo", repo_value);
    let arch_value = match param.arch {
        Some(a) => Some(a.to_query_param_value().to_owned()),
        None => None,
    };
    proof {
        assert(opt_view(arch_value) == (match p.arch {
            Some(a) => Some(arch_label(a)),
            None => None,
        }));
    }
    push_opt_pair(&mut q, "arch", arch_value);
    push_opt_pair(&mut q, "maintainer", param.maintainer);
    push_opt_pair(&mut q, "packager", param.packager);
    let flagged_value = match param.flagged {
        Some(f) => Some(f.to_query_param_value().to_owned()),
        None => None,
    };
    proof {
        assert(opt_view(flagged_value) == (match p.flagged {
            Some(f) => Some(flagged_label(f)),
            None => None,
        }));
    }
    push_opt_pair(&mut q, "flagged", flagged_value);

    proof {
        assert(pairs_view(q@) =~= query_pairs(p));
    }
    q
}

/// A key the search query mapping may carry.
pub open spec fn search_query_key(k: Seq<char>) -> bool {
    ||| k == "q"@
    ||| k == "name"@
    ||| k == "description"@
    ||| k == "repo"@
    ||| k == "arch"@
    ||| k == "maintainer"@
    ||| k == "packager"@
    ||| k == "flagged"@
}

/// How many entries of a query mapping carry the key `k`.
pub open spec fn key_count(s: Seq<(Seq<char>, Seq<char>)>, k: Seq<char>) -> int
    decreases s.len(),
{
    if s.len() == 0 {
        0
    } else {
        key_count(s.drop_last(), k) + if s.last().0 == k {
            1int
        } else {
            0
        }
    }
}

pub open spec fn opt_count<T>(v: Option<T>) -> int {
    match v {
        Some(_) => 1,
        None => 0,
    }
}

/// What one optional field adds to the count of key `k`.
pub open spec fn entry_count(key: Seq<char>, v: Option<Seq<char>>, k: Seq<char>) -> int {
    if v is Some && key == k {
        1
    } else {
        0
    }
}

proof fn lemma_key_count_nonneg(s: Seq<(Seq<char>, Seq<char>)>, k: Seq<char>)
    ensures
        key_count(s, k) >= 0,
    decreases s.len(),
{
    if s.len() > 0 {
        lemma_key_count_nonneg(s.drop_last(), k);
    }
}

proof fn lemma_key_count_single(e: (Seq<char>, Seq<char>), k: Seq<char>)
    ensures
        key_count(seq![e], k) == if e.0 == k {
            1int
        } else {
            0
        },
{
    reveal_with_fuel(key_count, 3);
    assert(seq![e].drop_last() =~= Seq::<(Seq<char>, Seq<char>)>::empty());
    assert(key_count(seq![e].drop_last(), k) == 0);
    assert(seq![e].last() == e);
}

proof fn lemma_key_count_add(a: Seq<(Seq<char>, Seq<char>)>, b: Seq<(Seq<char>, Seq<char>)>, k: Seq<char>)
    ensures
        key_count(a + b, k) == key_count(a, k) + key_count(b, k),
    decreases b.len(),
{
    if b.len() == 0 {
        assert(a + b =~= a);
    } else {
        lemma_key_count_add(a, b.drop_last(), k);
        assert((a + b).drop_last() =~= a + b.drop_last());
        assert((a + b).last() == b.last());
    }
}

proof fn lemma_key_count_zero(s: Seq<(Seq<char>, Seq<char>)>, k: Seq<char>)
    requires
        key_count(s, k) == 0,
    ensures
        forall|i: int| 0 <= i < s.len() ==> (#[trigger] s[i]).0 != k,
    decreases s.len(),
{
    if s.len() > 0 {
        lemma_key_count_nonneg(s.drop_last(), k);
        lemma_key_count_zero(s.drop_last(), k);
        assert forall|i: int| 0 <= i < s.len() implies (#[trigger] s[i]).0 != k by {
            if i < s.len() - 1 {
                assert(s[i] == s.drop_last()[i]);
            } else {
                assert(s[i] == s.last());
            }
        }
    }
}

#[verifier::rlimit(50)]
proof fn lemma_query_pairs_count(p: PackageSearchParam, k: Seq<char>)
    ensures
        key_count(query_pairs(p), k) == entry_count("q"@, opt_view(p.query), k) + entry_count(
            "name"@,
            opt_view(p.name),
            k,
        ) + entry_count("description"@, opt_view(p.description), k) + entry_count(
            "repo"@,
            match p.repo {
                Some(r) => Some(repo_label(r)),
                None => None,
            },
            k,
        ) + entry_count(
            "arch"@,
            match p.arch {
                Some(a) => Some(arch_label(a)),
                None => None,
            },
            k,
        ) + entry_count("maintainer"@, opt_view(p.maintainer), k) + entry_count(
            "packager"@,
            opt_view(p.packager),
            k,
        ) + entry_count(
            "flagged"@,
            match p.flagged {
                Some(f) => Some(flagged_label(f)),
                None => None,
            },
            k,
        ),
{
    let e1 = opt_entry("q"@, opt_view(p.query));
    let e2 = opt_entry("name"@, opt_view(p.name));
    let e3 = opt_entry("description"@, opt_view(p.description));
    let e4 = opt_entry(
        "repo"@,
        match p.repo {
            Some(r) => Some(repo_label(r)),
            None => None,
        },
    );
    let e5 = opt_entry(
        "arch"@,
        match p.arch {
            Some(a) => Some(arch_label(a)),
            None => None,
        },
    );
    let e6 = opt_entry("maintainer"@, opt_view(p.maintainer));
    let e7 = opt_entry("packager"@, opt_view(p.packager));
    let e8 = opt_entry(
        "flagged"@,
        match p.flagged {
            Some(f) => Some(flagged_label(f)),
            None => None,
        },
    );
    reveal_with_fuel(key_count, 2);
    assert(query_pairs(p) == e1 + e2 + e3 + e4 + e5 + e6 + e7 + e8);
    if p.query is Some {
        lemma_key_count_single(("q"@, opt_view(p.query)->Some_0), k);
    }
    assert(key_count(e1, k) == entry_count("q"@, opt_view(p.query), k));
    if p.name is Some {
        lemma_key_count_single(("name"@, opt_view(p.name)->Some_0), k);
    }
    assert(key_count(e2, k) == entry_count("name"@, opt_view(p.name), k));
    if p.description is Some {
        lemma_key_count_single(("description"@, opt_view(p.description)->Some_0), k);
    }
    assert(key_count(e3, k) == entry_count("description"@, opt_view(p.description), k));
    if p.repo is Some {
        lemma_key_count_single(("repo"@, repo_label(p.repo->Some_0)), k);
    }
    assert(key_count(e4, k) == entry_count(
        "repo"@,
        match p.repo {
            Some(r) => Some(repo_label(r)),
            None => None,
        },
        k,
    ));
    if p.arch is Some {
        lemma_key_count_single(("arch"@, arch_label(p.arch->Some_0)), k);
    }
    assert(key_count(e5, k) == entry_count(
        "arch"@,
        match p.arch {
            Some(a) => Some(arch_label(a)),
            None => None,
        },
        k,
    ));
    if p.maintainer is Some {
        lemma_key_count_single(("maintainer"@, opt_view(p.maintainer)->Some_0), k);
    }
    assert(key_count(e6, k) == entry_count("maintainer"@, opt_view(p.maintainer), k));
    if p.packager is Some {
        lemma_key_count_single(("packager"@, opt_view(p.packager)->Some_0), k);
    }
    assert(key_count(e7, k) == entry_count("packager"@, opt_view(p.packager), k));
    if p.flagged is Some {
        lemma_key_count_single(("flagged"@, flagged_label(p.flagged->Some_0)), k);
    }
    assert(key_count(e8, k) == entry_count(
        "flagged"@,
        match p.flagged {
            Some(f) => Some(flagged_label(f)),
            None => None,
        },
        k,
    ));
    lemma_key_count_add(e1, e2, k);
    lemma_key_count_add(e1 + e2, e3, k);
    lemma_key_count_add(e1 + e2 + e3, e4, k);
    lemma_key_count_add(e1 + e2 + e3 + e4, e5, k);
    lemma_key_count_add(e1 + e2 + e3 + e4 + e5, e6, k);
    lemma_key_count_add(e1 + e2 + e3 + e4 + e5 + e6, e7, k);
    lemma_key_count_add(e1 + e2 + e3 + e4 + e5 + e6 + e7, e8, k);
}

/// Law: the query mapping of a search holds exactly one entry for every
/// set field and none for an unset field, and every key it carries is one
/// of the eight documented keys.
pub proof fn lemma_query_pairs_exact(p: PackageSearchParam)
    ensures
        key_count(query_pairs(p), "q"@) == opt_count(p.query),
        key_count(query_pairs(p), "name"@) == opt_count(p.name),
        key_count(query_pairs(p), "description"@) == opt_count(p.description),
        key_count(query_pairs(p), "repo"@) == opt_count(p.repo),
        key_count(query_pairs(p), "arch"@) == opt_count(p.arch),
        key_count(query_pairs(p), "maintainer"@) == opt_count(p.maintainer),
        key_count(query_pairs(p), "packager"@) == opt_count(p.packager),
        key_count(query_pairs(p), "flagged"@) == opt_count(p.flagged),
        forall|i: int| 0 <= i < query_pairs(p).len() ==> search_query_key(
            #[trigger] query_pairs(p)[i].0,
        ),
{
    reveal_strlit("q");
    reveal_strlit("name");
    reveal_strlit("description");
    reveal_strlit("repo");
    reveal_strlit("arch");
    reveal_strlit("maintainer");
    reveal_strlit("packager");
    reveal_strlit("flagged");
    assert("q"@ != "name"@) by {
        assert("q"@.len() == 1);
        assert("name"@.len() == 4);
    }
    assert("q"@ != "description"@) by {
        assert("q"@.len() == 1);
        assert("description"@.len() == 11);
    }
    assert("q"@ != "repo"@) by {
        assert("q"@.len() == 1);
        assert("repo"@.len() == 4);
    }
    assert("q"@ != "arch"@) by {
        assert("q"@.len() == 1);
        assert("arch"@.len() == 4);
    }
    assert("q"@ != "maintainer"@) by {
        assert("q"@.len() == 1);
        assert("maintainer"@.len() == 10);
    }
    assert("q"@ != "packager"@) by {
        assert("q"@.len() == 1);
        assert("packager"@.len() == 8);
    }
    assert("q"@ != "flagged"@) by {
        assert("q"@.len() == 1);
        assert("flagged"@.len() == 7);
    }
    assert("name"@ != "description"@) by {
        assert("name"@.len() == 4);
        assert("description"@.len() == 11);
    }
    assert("name"@ != "repo"@) by {
        assert("name"@[0] == 'n');
        assert("repo"@[0] == 'r');
    }
    assert("name"@ != "arch"@) by {
        assert("name"@[0] == 'n');
        assert("arch"@[0] == 'a');
    }
    assert("name"@ != "maintainer"@) by {
        assert("name"@.len() == 4);
        assert("maintainer"@.len() == 10);
    }
    assert("name"@ != "packager"@) by {
        assert("name"@.len() == 4);
        assert("packager"@.len() == 8);
    }
    assert("name"@ != "flagged"@) by {
        assert("name"@.len() == 4);
        assert("flagged"@.len() == 7);
    }
    assert("description"@ != "repo"@) by {
        assert("description"@.len() == 11);
        assert("repo"@.len() == 4);
    }
    assert("description"@ != "arch"@) by {
        assert("description"@.len() == 11);
        assert("arch"@.len() == 4);
    }
    assert("description"@ != "maintainer"@) by {
        assert("description"@.len() == 11);
        assert("maintainer"@.len() == 10);
    }
    assert("description"@ != "packager"@) by {
        assert("description"@.len() == 11);
        assert("packager"@.len() == 8);
    }
    assert("description"@ != "flagged"@) by {
        assert("description"@.len() == 11);
        assert("flagged"@.len() == 7);
    }
    assert("repo"@ != "arch"@) by {
        assert("repo"@[0] == 'r');
        assert("arch"@[0] == 'a');
    }
    assert("repo"@ != "maintainer"@) by {
        assert("repo"@.len() == 4);
        assert("maintainer"@.len() == 10);
    }
    assert("repo"@ != "packager"@) by {
        assert("repo"@.len() == 4);
        assert("packager"@.len() == 8);
    }
    assert("repo"@ != "flagged"@) by {
        assert("repo"@.len() == 4);
        assert("flagged"@.len() == 7);
    }
    assert("arch"@ != "maintainer"@) by {
        assert("arch"@.len() == 4);
        assert("maintainer"@.len() == 10);
    }
    assert("arch"@ != "packager"@) by {
        assert("arch"@.len() == 4);
        assert("packager"@.len() == 8);
    }
    assert("arch"@ != "flagged"@) by {
        assert("arch"@.len() == 4);
        assert("flagged"@.len() == 7);
    }
    assert("maintainer"@ != "packager"@) by {
        assert("maintainer"@.len() == 10);
        assert("packager"@.len() == 8);
    }
    assert("maintainer"@ != "flagged"@) by {
        assert("maintainer"@.len() == 10);
        assert("flagged"@.len() == 7);
    }
    assert("packager"@ != "flagged"@) by {
        assert("packager"@.len() == 8);
        assert("flagged"@.len() == 7);
    }
    lemma_query_pairs_count(p, "q"@);
    lemma_query_pairs_count(p, "name"@);
    lemma_query_pairs_count(p, "description"@);
    lemma_query_pairs_count(p, "repo"@);
    lemma_query_pairs_count(p, "arch"@);
    lemma_query_pairs_count(p, "maintainer"@);
    lemma_query_pairs_count(p, "packager"@);
    lemma_query_pairs_count(p, "flagged"@);
    assert forall|i: int| 0 <= i < query_pairs(p).len() implies search_query_key(
        #[trigger] query_pairs(p)[i].0,
    ) by {
        let k = query_pairs(p)[i].0;
        if !search_query_key(k) {
            lemma_query_pairs_count(p, k);
            lemma_key_count_zero(query_pairs(p), k);
        }
    }
}

} // verus!
