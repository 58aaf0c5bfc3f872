//! Resolving a hosted gist's id and file name out of a raw-content URL of
//! the shape `https://gist.githubusercontent.com/<user>/<id>/raw/<rev>/<name>`.

use vstd::prelude::*;

use crate::text::str_eq;

verus! {

/// Position of the first occurrence of `needle` in `hay`, or a negative
/// number when it never occurs.
pub open spec fn first_occurrence(hay: Seq<char>, needle: Seq<char>) -> int
    decreases hay.len(),
{
    if hay.len() < needle.len() {
        -1
    } else if hay.subrange(0, needle.len() as int) == needle {
        0
    } else if hay.len() == 0 {
        -1
    } else if first_occurrence(hay.drop_first(), needle) < 0 {
        -1
    } else {
        1 + first_occurrence(hay.drop_first(), needle)
    }
}

proof fn lemma_first_occurrence_found(hay: Seq<char>, needle: Seq<char>, i: int)
    requires
        0 <= i,
        i + needle.len() <= hay.len(),
        forall|j: int, k: int| 0 <= j < i && k == j + needle.len() ==> #[trigger] hay.subrange(
            j,
            k,
        ) != needle,
        hay.subrange(i, i + needle.len()) == needle,
    ensures
        first_occurrence(hay, needle) == i,
    decreases i,
{
    if i == 0 {
    } else {
        let t = hay.drop_first();
        assert forall|j: int, k: int| 0 <= j < i - 1 && k == j + needle.len() implies #[trigger] t.subrange(
            j,
            k,
        ) != needle by {
            assert(t.subrange(j, k) =~= hay.subrange(j + 1, k + 1));
        }
        assert(t.subrange(i - 1, i - 1 + needle.len()) =~= hay.subrange(i, i + needle.len()));
        lemma_first_occurrence_found(t, needle, i - 1);
        assert(hay.subrange(0, needle.len() as int) != needle);
    }
}

proof fn lemma_first_occurrence_none(hay: Seq<char>, needle: Seq<char>)
    requires
        forall|j: int, k: int|
            0 <= j <= hay.len() - needle.len() && k == j + needle.len()
                ==> #[trigger] hay.subrange(j, k) != needle,
    ensures
        first_occurrence(hay, needle) < 0,
    decreases hay.len(),
{
    if needle.len() == 0 {
        assert(hay.subrange(0, 0) =~= needle);
    } else if hay.len() >= needle.len() {
        let t = hay.drop_first();
        assert forall|j: int, k: int|
            0 <= j <= t.len() - needle.len() && k == j + needle.len() implies #[trigger] t.subrange(
            j,
            k,
        ) != needle by {
            assert(t.subrange(j, k) =~= hay.subrange(j + 1, k + 1));
        }
        lemma_first_occurrence_none(t, needle);
        assert(hay.subrange(0, needle.len() as int) != needle);
    }
}

/// Position of the first occurrence of `needle` in `hay`, scanning the
/// characters.
pub fn find_sub(hay: &str, needle: &str) -> (r: Option<usize>)
    ensures
        match r {
            Some(i) => first_occurrence(hay@, needle@) == i,
            None => first_occurrence(hay@, needle@) < 0,
        },
{
    let hl = hay.unicode_len();
    let nl = needle.unicode_len();
    if nl == 0 {
        proof {
            assert(hay@.subrange(0, 0) =~= needle@);
        }
        return Some(0);
    }
    if nl > hl {
        proof {
            lemma_first_occurrence_none(hay@, needle@);
        }
        return None;
    }
    let mut i: usize = 0;
    while i <= hl - nl
        invariant
            0 <= i <= hl - nl + 1,
            nl <= hl,
            hl == hay@.len(),
            nl == needle@.len(),
            nl >= 1,
            forall|j: int, k: int|
                0 <= j < i && k == j + needle@.len() ==> #[trigger] hay@.subrange(j, k)
                    != needle@,
        decreases hl - nl + 1 - i,
    {
        let candidate = hay.substring_char(i, i + nl);
        if str_eq(candidate, needle) {
            proof {
                lemma_first_occurrence_found(hay@, needle@, i as int);
            }
            return Some(i);
        }
        i += 1;
    }
    proof {
        lemma_first_occurrence_none(hay@, needle@);
    }
    None
}

/// What resolving a raw-content gist URL yields: the text between the host
/// prefix and the `/raw/` marker holds `<user>/<id>` and gives up the id;
/// the text after the marker holds `<rev>/<name>` and gives up the name.
pub open spec fn spec_parse_gist_url(url: Seq<char>) -> Option<(Seq<char>, Seq<char>)> {
    let base = "https://gist.githubusercontent.com/"@;
    let delim = "/raw/"@;
    let slash = "/"@;
    let b = first_occurrence(url, base);
    if b < 0 {
        None
    } else {
        let after = url.subrange(b + base.len(), url.len() as int);
        let d = first_occurrence(after, delim);
        if d < 0 {
            None
        } else {
            let id_part = after.subrange(0, d);
            let s1 = first_occurrence(id_part, slash);
            if s1 < 0 {
                None
            } else {
                let name_part = after.subrange(d + delim.len(), after.len() as int);
                let s2 = first_occurrence(name_part, slash);
                if s2 < 0 {
                    None
                } else {
                    Some(
                        (
                            id_part.subrange(s1 + 1, id_part.len() as int),
                            name_part.subrange(s2 + 1, name_part.len() as int),
                        ),
                    )
                }
            }
        }
    }
}

proof fn lemma_first_occurrence_in_range(hay: Seq<char>, needle: Seq<char>)
    ensures
        first_occurrence(hay, needle) >= 0 ==> first_occurrence(hay, needle) + needle.len()
            <= hay.len(),
    decreases hay.len(),
{
    if hay.len() >= needle.len() && hay.subrange(0, needle.len() as int) != needle {
        assert(needle.len() > 0) by {
            if needle.len() == 0 {
                assert(hay.subrange(0, 0) =~= needle);
            }
        };
        lemma_first_occurrence_in_range(hay.drop_first(), needle);
    }
}

/// Splits a raw-content gist URL into the gist id and the file name; a URL
/// without the host prefix, the `/raw/` marker, or the separating slashes is
/// rejected.
pub fn parse_gist_url(url: &str) -> (r: Option<(String, String)>)
    ensures
        match r {
            Some(pair) => (spec_parse_gist_url(url@) matches Some(p) && pair.0@ == p.0 && pair.1@
                == p.1),
            None => spec_parse_gist_url(url@) is None,
        },
{
    proof {
        reveal_strlit("/");
    }
    let base = "https://gist.githubusercontent.com/";
    let delim = "/raw/";
    let base_idx = match find_sub(url, base) {
        Some(i) => i,
        None => {
            return None;
        },
    };
    proof {
        lemma_first_occurrence_in_range(url@, base@);
    }
    let base_len = base.unicode_len();
    let url_len = url.unicode_len();
    let after = url.substring_char(base_idx + base_len, url_len);
    let raw_idx = match find_sub(after, delim) {
        Some(i) => i,
        None => {
            return None;
        },
    };
    proof {
        lemma_first_occurrence_in_range(after@, delim@);
    }
    let id_part = after.substring_char(0, raw_idx);
    let s1 = match find_sub(id_part, "/") {
        Some(i) => i,
        None => {
            return None;
        },
    };
    proof {
        lemma_first_occurrence_in_range(id_part@, "/"@);
    }
    let delim_len = delim.unicode_len();
    let after_len = after.unicode_len();
    let name_part = after.substring_char(raw_idx + delim_len, after_len);
    let s2 = match find_sub(name_part, "/") {
        Some(i) => i,
        None => {
            return None;
        },
    };
    proof {
        lemma_first_occurrence_in_range(name_part@, "/"@);
    }
    let id_len = id_part.unicode_len();
    let name_len = name_part.unicode_len();
    let gist_id = id_part.substring_char(s1 + 1, id_len).to_owned();
    let file_name = name_part.substring_char(s2 + 1, name_len).to_owned();
    Some((gist_id, file_name))
}

} // verus!
