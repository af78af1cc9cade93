use vstd::prelude::*;

use crate::types::{arch_label, repo_label, Arch, Repo};

verus! {

/// The fixed base of every package-database URL.
pub open spec fn packages_base() -> Seq<char> {
    "https://archlinux.org/packages"@
}

/// A character that the `url` crate's path-segment writer copies into the
/// URL unchanged: printable ASCII outside the special-path-segment encode
/// set of the WHATWG URL standard (controls, space and non-ASCII are
/// percent-encoded, as are the listed delimiters).
pub open spec fn plain_path_char(c: char) -> bool {
    &&& 0x21 <= c as u32
    &&& c as u32 <= 0x7e
    &&& c != '"'
    &&& c != '#'
    &&& c != '%'
    &&& c != '/'
    &&& c != '<'
    &&& c != '>'
    &&& c != '?'
    &&& c != '\\'
    &&& c != '`'
    &&& c != '{'
    &&& c != '}'
}

/// A path segment that the `url` crate appends verbatim: nonempty, not one
/// of the dot segments it drops, and made of plain characters only.
pub open spec fn plain_path_segment(s: Seq<char>) -> bool {
    &&& s.len() > 0
    &&& s != "."@
    &&& s != ".."@
    &&& forall|i: int| 0 <= i < s.len() ==> plain_path_char(#[trigger] s[i])
}

/// What the `url` crate serializes after the base URL is parsed and each
/// segment in turn is appended to its path. Dot segments are dropped and
/// the rest are percent-encoded, so the result is named rather than spelled
/// out; `url_with_path_segments` ties it to the one plain case a caller of
/// this library relies on.
pub uninterp spec fn pushed_segments_url(base: Seq<char>, segments: Seq<Seq<char>>) -> Seq<char>;

/// The URL obtained by appending `/` and each segment, unencoded, to the
/// base. This is what `pushed_segments_url` comes to when every segment is
/// plain.
pub open spec fn plain_joined_url(base: Seq<char>, segments: Seq<Seq<char>>) -> Seq<char>
    decreases segments.len(),
{
    if segments.len() == 0 {
        base
    } else {
        plain_joined_url(base, segments.drop_last()) + seq!['/'] + segments.last()
    }
}

/// Relies on the `url` crate: `Url::parse` accepts the fixed base and keeps
/// its serialization, `PathSegmentsMut::push` appends `/` plus the segment
/// percent-encoded per the special-path-segment set (dropping `.` and `..`
/// segments), and `Url::to_string` returns the serialization. A segment made
/// only of plain characters is therefore appended verbatim.
#[verifier::external_body]
pub(crate) fn url_with_path_segments(base: &str, segments: &Vec<String>) -> (r: String)
    requires
        base@ == packages_base(),
    ensures
        r@ == pushed_segments_url(base@, segments@.map_values(|s: String| s@)),
        (forall|i: int| 0 <= i < segments@.len() ==> plain_path_segment(#[trigger] segments@[i]@))
            ==> r@ == plain_joined_url(base@, segments@.map_values(|s: String| s@)),
{
    let mut u = url::Url::parse(base).unwrap();
    {
        let mut p = u.path_segments_mut().unwrap();
        for s in segments.iter() {
            p.push(s);
        }
    }
    u.to_string()
}

/// Every repository label is appended to a URL path verbatim.
pub proof fn lemma_repo_label_plain(r: Repo)
    ensures
        plain_path_segment(repo_label(r)),
{
    reveal_strlit(".");
    reveal_strlit("..");
    match r {
        Repo::Core => {
            reveal_strlit("Core");
            let s = "Core"@;
            assert forall|i: int| 0 <= i < s.len() implies plain_path_char(#[trigger] s[i]) by {
                assert(s.len() == 4);
                if i == 0 {
                    assert(plain_path_char(s[0]));
                } else if i == 1 {
                    assert(plain_path_char(s[1]));
                } else if i == 2 {
                    assert(plain_path_char(s[2]));
                } else {
                    assert(plain_path_char(s[3]));
                }
            }
        },
        Repo::CoreTesting => {
            reveal_strlit("Core-Testing");
            let s = "Core-Testing"@;
            assert forall|i: int| 0 <= i < s.len() implies plain_path_char(#[trigger] s[i]) by {
                assert(s.len() == 12);
                if i == 0 {
                    assert(plain_path_char(s[0]));
                } else if i == 1 {
                    assert(plain_path_char(s[1]));
                } else if i == 2 {
                    assert(plain_path_char(s[2]));
                } else if i == 3 {
                    assert(plain_path_char(s[3]));
                } else if i == 4 {
                    assert(plain_path_char(s[4]));
                } else if i == 5 {
                    assert(plain_path_char(s[5]));
                } else if i == 6 {
                    assert(plain_path_char(s[6]));
                } else if i == 7 {
                    assert(plain_path_char(s[7]));
                } else if i == 8 {
                    assert(plain_path_char(s[8]));
                } else if i == 9 {
                    assert(plain_path_char(s[9]));
                } else if i == 10 {
                    assert(plain_path_char(s[10]));
                } else {
                    assert(plain_path_char(s[11]));
                }
            }
        },
        Repo::Extra => {
            reveal_strlit("Extra");
            let s = "Extra"@;
            assert forall|i: int| 0 <= i < s.len() implies plain_path_char(#[trigger] s[i]) by {
                assert(s.len() == 5);
                if i == 0 {
                    assert(plain_path_char(s[0]));
                } else if i == 1 {
                    assert(plain_path_char(s[1]));
                } else if i == 2 {
                    assert(plain_path_char(s[2]));
                } else if i == 3 {
                    assert(plain_path_char(s[3]));
                } else {
                    assert(plain_path_char(s[4]));
                }
            }
        },
        Repo::ExtraTesting => {
            reveal_strlit("Extra-Testing");
            let s = "Extra-Testing"@;
            assert forall|i: int| 0 <= i < s.len() implies plain_path_char(#[trigger] s[i]) by {
                assert(s.len() == 13);
                if i == 0 {
                    assert(plain_path_char(s[0]));
                } else if i == 1 {
                    assert(plain_path_char(s[1]));
                } else if i == 2 {
                    assert(plain_path_char(s[2]));
                } else if i == 3 {
                    assert(plain_path_char(s[3]));
                } else if i == 4 {
                    assert(plain_path_char(s[4]));
                } else if i == 5 {
                    assert(plain_path_char(s[5]));
                } else if i == 6 {
                    assert(plain_path_char(s[6]));
                } else if i == 7 {
                    assert(plain_path_char(s[7]));
                } else if i == 8 {
                    assert(plain_path_char(s[8]));
                } else if i == 9 {
                    assert(plain_path_char(s[9]));
                } else if i == 10 {
                    assert(plain_path_char(s[10]));
                } else if i == 11 {
                    assert(plain_path_char(s[11]));
                } else {
                    assert(plain_path_char(s[12]));
                }
            }
        },
        Repo::Multilib => {
            reveal_strlit("Multilib");
            let s = "Multilib"@;
            assert forall|i: int| 0 <= i < s.len() implies plain_path_char(#[trigger] s[i]) by {
                assert(s.len() == 8);
                if i == 0 {
                    assert(plain_path_char(s[0]));
                } else if i == 1 {
                    assert(plain_path_char(s[1]));
                } else if i == 2 {
                    assert(plain_path_char(s[2]));
                } else if i == 3 {
                    assert(plain_path_char(s[3]));
                } else if i == 4 {
                    assert(plain_path_char(s[4]));
                } else if i == 5 {
                    assert(plain_path_char(s[5]));
                } else if i == 6 {
                    assert(plain_path_char(s[6]));
                } else {
                    assert(plain_path_char(s[7]));
                }
            }
        },
        Repo::MultilibTesting => {
            reveal_strlit("Multilib-Testing");
            let s = "Multilib-Testing"@;
            assert forall|i: int| 0 <= i < s.len() implies plain_path_char(#[trigger] s[i]) by {
                assert(s.len() == 16);
                if i == 0 {
                    assert(plain_path_char(s[0]));
                } else if i == 1 {
                    assert(plain_path_char(s[1]));
                } else if i == 2 {
                    assert(plain_path_char(s[2]));
                } else if i == 3 {
                    assert(plain_path_char(s[3]));
                } else if i == 4 {
                    assert(plain_path_char(s[4]));
                } else if i == 5 {
                    assert(plain_path_char(s[5]));
                } else if i == 6 {
                    assert(plain_path_char(s[6]));
                } else if i == 7 {
                    assert(plain_path_char(s[7]));
                } else if i == 8 {
                    assert(plain_path_char(s[8]));
                } else if i == 9 {
                    assert(plain_path_char(s[9]));
                } else if i == 10 {
                    assert(plain_path_char(s[10]));
                } else if i == 11 {
                    assert(plain_path_char(s[11]));
                } else if i == 12 {
                    assert(plain_path_char(s[12]));
                } else if i == 13 {
                    assert(plain_path_char(s[13]));
                } else if i == 14 {
                    assert(plain_path_char(s[14]));
                } else {
                    assert(plain_path_char(s[15]));
                }
            }
        },
    }
}

/// Every architecture label is appended to a URL path verbatim.
pub proof fn lemma_arch_label_plain(a: Arch)
    ensures
        plain_path_segment(arch_label(a)),
{
    reveal_strlit(".");
    reveal_strlit("..");
    match a {
        Arch::Any => {
            reveal_strlit("any");
            let s = "any"@;
            assert forall|i: int| 0 <= i < s.len() implies plain_path_char(#[trigger] s[i]) by {
                assert(s.len() == 3);
                if i == 0 {
                    assert(plain_path_char(s[0]));
                } else if i == 1 {
                    assert(plain_path_char(s[1]));
                } else {
                    assert(plain_path_char(s[2]));
                }
            }
        },
        Arch::X86_64 => {
            reveal_strlit("x86_64");
            let s = "x86_64"@;
            assert forall|i: int| 0 <= i < s.len() implies plain_path_char(#[trigger] s[i]) by {
                assert(s.len() == 6);
                if i == 0 {
                    assert(plain_path_char(s[0]));
                } else if i == 1 {
                    assert(plain_path_char(s[1]));
                } else if i == 2 {
                    assert(plain_path_char(s[2]));
                } else if i == 3 {
                    assert(plain_path_char(s[3]));
                } else if i == 4 {
                    assert(plain_path_char(s[4]));
                } else {
                    assert(plain_path_char(s[5]));
                }
            }
        },
    }
}

/// The two fixed trailing path segments are appended verbatim.
pub proof fn lemma_fixed_segments_plain()
    ensures
        plain_path_segment("json"@),
        plain_path_segment("files"@),
{
    reveal_strlit(".");
    reveal_strlit("..");
    reveal_strlit("json");
    {
        let s = "json"@;
        assert forall|i: int| 0 <= i < s.len() implies plain_path_char(#[trigger] s[i]) by {
            assert(s.len() == 4);
            if i == 0 {
                assert(plain_path_char(s[0]));
            } else if i == 1 {
                assert(plain_path_char(s[1]));
            } else if i == 2 {
                assert(plain_path_char(s[2]));
            } else {
                assert(plain_path_char(s[3]));
            }
        }
    }
    reveal_strlit("files");
    {
        let s = "files"@;
        assert forall|i: int| 0 <= i < s.len() implies plain_path_char(#[trigger] s[i]) by {
            assert(s.len() == 5);
            if i == 0 {
                assert(plain_path_char(s[0]));
            } else if i == 1 {
                assert(plain_path_char(s[1]));
            } else if i == 2 {
                assert(plain_path_char(s[2]));
            } else if i == 3 {
                assert(plain_path_char(s[3]));
            } else {
                assert(plain_path_char(s[4]));
            }
        }
    }
}

} // verus!
