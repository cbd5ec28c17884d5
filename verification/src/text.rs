//! Verified string helpers: locating the last `/`-separated segment of a
//! string, trimming it, and removing path separator characters.

use vstd::prelude::*;
use vstd::string::*;

verus! {

/// Whether a character survives request-name synthesis: every `/`, `{` and
/// `}` is removed.
pub open spec fn keeps_name_char(c: char) -> bool {
    !(c == '/' || c == '{' || c == '}')
}

/// A string with every `/`, `{` and `}` removed.
pub open spec fn without_separators(s: Seq<char>) -> Seq<char> {
    s.filter(|c: char| keeps_name_char(c))
}

/// The position of the last `/` in `s`, if any.
pub open spec fn last_slash(s: Seq<char>) -> Option<int>
    decreases s.len(),
{
    if s.len() == 0 {
        None
    } else if s.last() == '/' {
        Some(s.len() - 1)
    } else {
        last_slash(s.drop_last())
    }
}

/// The part of `s` after its last `/`, or all of `s` when it has none: what
/// splitting on `/` and keeping the last piece yields.
pub open spec fn last_segment(s: Seq<char>) -> Seq<char> {
    match last_slash(s) {
        None => s,
        Some(i) => s.skip(i + 1),
    }
}

/// The part of `s` before its last `/`, or the empty string when it has
/// none: the `/`-separated segments of `s` with the final one removed,
/// rejoined with `/`.
pub open spec fn trim_last_segment(s: Seq<char>) -> Seq<char> {
    match last_slash(s) {
        None => Seq::empty(),
        Some(i) => s.take(i),
    }
}

/// `last_slash` indeed returns the greatest position of a `/`, and `None`
/// only when there is none.
pub proof fn lemma_last_slash_props(s: Seq<char>)
    ensures
        match last_slash(s) {
            None => forall|j: int| 0 <= j < s.len() ==> s[j] != '/',
            Some(i) => 0 <= i < s.len() && s[i] == '/' && (forall|j: int|
                i < j < s.len() ==> s[j] != '/'),
        },
    decreases s.len(),
{
    if s.len() != 0 && s.last() != '/' {
        lemma_last_slash_props(s.drop_last());
        assert forall|j: int| 0 <= j < s.len() - 1 implies s.drop_last()[j] == s[j] by {}
    }
}

/// Finds the position of the last `/` of `s`.
fn rfind_slash(s: &str) -> (r: Option<usize>)
    ensures
        match r {
            None => last_slash(s@) is None,
            Some(i) => last_slash(s@) == Some(i as int),
        },
{
    let n = s.unicode_len();
    let mut i: usize = n;
    proof {
        assert(s@.take(n as int) =~= s@);
    }
    while i > 0
        invariant
            i <= n,
            n == s@.len(),
            last_slash(s@) == last_slash(s@.take(i as int)),
        decreases i,
    {
        let c = s.get_char(i - 1);
        if c == '/' {
            proof {
                assert(s@.take(i as int).last() == s@[i as int - 1]);
            }
            return Some(i - 1);
        }
        proof {
            assert(s@.take(i as int).drop_last() =~= s@.take(i as int - 1));
        }
        i = i - 1;
    }
    proof {
        assert(s@.take(0) =~= Seq::<char>::empty());
    }
    None
}

/// Returns the part of `s` after its last `/`, or all of `s` when it has
/// none: the final segment of a `$ref`-style path.
pub fn last_segment_of(s: &str) -> (r: String)
    ensures
        r@ == last_segment(s@),
{
    let n = s.unicode_len();
    match rfind_slash(s) {
        Some(i) => {
            proof {
                lemma_last_slash_props(s@);
            }
            let sub = s.substring_char(i + 1, n);
            proof {
                assert(s@.subrange(i + 1 as int, n as int) =~= s@.skip(i as int + 1));
            }
            sub.to_owned()
        },
        None => s.to_owned(),
    }
}

/// Returns `url` with its final `/`-delimited segment removed and the rest
/// rejoined with `/`.
pub fn split_url_path(url: &str) -> (r: String)
    ensures
        r@ == trim_last_segment(url@),
{
    match rfind_slash(url) {
        Some(i) => {
            proof {
                lemma_last_slash_props(url@);
            }
            let sub = url.substring_char(0, i);
            proof {
                assert(url@.subrange(0, i as int) =~= url@.take(i as int));
            }
            sub.to_owned()
        },
        None => String::new(),
    }
}

/// Returns `s` with every `/`, `{` and `}` removed.
pub fn remove_separators(s: &str) -> (r: String)
    ensures
        r@ == without_separators(s@),
{
    let n = s.unicode_len();
    let mut out = String::new();
    let mut i: usize = 0;
    proof {
        reveal(Seq::filter);
        assert(s@.take(0) =~= Seq::<char>::empty());
        assert(Seq::<char>::empty().filter(|c: char| keeps_name_char(c)) =~= Seq::<
            char,
        >::empty());
    }
    while i < n
        invariant
            i <= n,
            n == s@.len(),
            out@ == without_separators(s@.take(i as int)),
        decreases n - i,
    {
        let ghost pre = s@.take(i as int);
        let ghost cur = s@.take(i as int + 1);
        let c = s.get_char(i);
        proof {
            reveal(Seq::filter);
            assert(cur.drop_last() =~= pre);
            assert(cur.last() == s@[i as int]);
        }
        if !(c == '/' || c == '{' || c == '}') {
            let piece = s.substring_char(i, i + 1);
            proof {
                assert(piece@ =~= seq![s@[i as int]]);
            }
            out.append(piece);
            proof {
                reveal(Seq::filter);
                assert(out@ =~= without_separators(pre).push(s@[i as int]));
                assert(without_separators(cur) == without_separators(pre).push(s@[i as int]));
            }
        } else {
            proof {
                reveal(Seq::filter);
                assert(without_separators(cur) == without_separators(pre));
            }
        }
        i = i + 1;
    }
    proof {
        assert(s@.take(n as int) =~= s@);
    }
    out
}

/// Whether some string of `rs` reads exactly `name`.
pub open spec fn contains_str(rs: Seq<String>, name: Seq<char>) -> bool {
    exists|j: int| 0 <= j < rs.len() && rs[j]@ == name
}

/// Returns whether some string of `rs` reads exactly `name`.
pub fn vec_contains_string(rs: &Vec<String>, name: &String) -> (b: bool)
    ensures
        b == contains_str(rs@, name@),
{
    let mut j: usize = 0;
    while j < rs.len()
        invariant
            j <= rs@.len(),
            forall|k: int| 0 <= k < j ==> rs@[k]@ != name@,
        decreases rs@.len() - j,
    {
        if rs[j] == *name {
            proof {
                assert(rs@[j as int]@ == name@);
            }
            return true;
        }
        j = j + 1;
    }
    false
}

} // verus!
