//! Trimming leading and trailing whitespace from a string, as `str::trim`
//! does: the Homebrew prefix arrives with a trailing newline that must go
//! before the prefix can stand in a path.

use vstd::prelude::*;
use crate::whitespace::{is_ws_char, is_whitespace_char};

verus! {

/// Length of the leading run of whitespace characters of `s`.
pub open spec fn leading_ws_len(s: Seq<char>) -> nat
    decreases s.len(),
{
    if s.len() == 0 || !is_ws_char(s[0]) {
        0
    } else {
        1 + leading_ws_len(s.drop_first())
    }
}

/// Length of the trailing run of whitespace characters of `s`.
pub open spec fn trailing_ws_len(s: Seq<char>) -> nat
    decreases s.len(),
{
    if s.len() == 0 || !is_ws_char(s[s.len() - 1]) {
        0
    } else {
        1 + trailing_ws_len(s.drop_last())
    }
}

/// `s` without its leading and trailing whitespace, as `str::trim` gives it.
pub open spec fn trim_ws(s: Seq<char>) -> Seq<char> {
    if leading_ws_len(s) == s.len() {
        Seq::empty()
    } else {
        s.subrange(leading_ws_len(s) as int, s.len() - trailing_ws_len(s))
    }
}

/// The leading whitespace run is whitespace throughout and maximal.
proof fn lemma_leading_ws(s: Seq<char>)
    ensures
        leading_ws_len(s) <= s.len(),
        forall|k: int| 0 <= k < leading_ws_len(s) ==> is_ws_char(s[k]),
        leading_ws_len(s) < s.len() ==> !is_ws_char(s[leading_ws_len(s) as int]),
    decreases s.len(),
{
    if s.len() == 0 || !is_ws_char(s[0]) {
    } else {
        lemma_leading_ws(s.drop_first());
        assert forall|k: int| 0 <= k < leading_ws_len(s) implies is_ws_char(s[k]) by {
            if k > 0 {
                assert(s.drop_first()[k - 1] == s[k]);
            }
        }
    }
}

/// The trailing whitespace run is whitespace throughout and maximal.
proof fn lemma_trailing_ws(s: Seq<char>)
    ensures
        trailing_ws_len(s) <= s.len(),
        forall|k: int| s.len() - trailing_ws_len(s) <= k < s.len() ==> is_ws_char(s[k]),
        trailing_ws_len(s) < s.len() ==> !is_ws_char(
            s[s.len() - trailing_ws_len(s) - 1],
        ),
    decreases s.len(),
{
    if s.len() == 0 || !is_ws_char(s[s.len() - 1]) {
    } else {
        lemma_trailing_ws(s.drop_last());
        assert forall|k: int| s.len() - trailing_ws_len(s) <= k < s.len() implies is_ws_char(
            s[k],
        ) by {
            if k < s.len() - 1 {
                assert(s.drop_last()[k] == s[k]);
            }
        }
    }
}

/// The leading whitespace run grows by one each time a whitespace character
/// is put in front.
proof fn lemma_leading_ws_len_skip(s: Seq<char>, i: int)
    requires
        0 <= i < s.len(),
        is_ws_char(s[i]),
    ensures
        leading_ws_len(s.skip(i)) == 1 + leading_ws_len(s.skip(i + 1)),
{
    assert(s.skip(i)[0] == s[i]);
    assert(s.skip(i).drop_first() =~= s.skip(i + 1));
}

/// Index of the first non-whitespace character at or after `i`, or the
/// length of `s` if there is none.
fn ws_end(s: &str, i: usize, len: usize) -> (j: usize)
    requires
        i <= len,
        len == s@.len(),
    ensures
        i <= j <= len,
        j - i == leading_ws_len(s@.skip(i as int)),
    decreases len - i,
{
    if i == len {
        assert(s@.skip(i as int) =~= Seq::<char>::empty());
        i
    } else {
        let c = s.get_char(i);
        proof {
            assert(s@.skip(i as int)[0] == s@[i as int]);
        }
        if is_whitespace_char(c) {
            proof {
                lemma_leading_ws_len_skip(s@, i as int);
            }
            ws_end(s, i + 1, len)
        } else {
            i
        }
    }
}

/// Index at which the trailing whitespace run of the first `j` characters of
/// `s` begins, or `0` if those characters are all whitespace.
fn ws_start_back(s: &str, j: usize, len: usize) -> (k: usize)
    requires
        j <= len,
        len == s@.len(),
    ensures
        k <= j,
        j - k == trailing_ws_len(s@.take(j as int)),
    decreases j,
{
    if j == 0 {
        assert(s@.take(0) =~= Seq::<char>::empty());
        0
    } else {
        let c = s.get_char(j - 1);
        proof {
            assert(s@.take(j as int)[j - 1] == s@[j - 1]);
        }
        if is_whitespace_char(c) {
            proof {
                assert(s@.take(j as int).drop_last() =~= s@.take(j as int - 1));
            }
            ws_start_back(s, j - 1, len)
        } else {
            j
        }
    }
}

/// `s` without its leading and trailing whitespace, as `str::trim` returns
/// it: a slice of `s`.
pub fn trim_str<'a>(s: &'a str) -> (r: &'a str)
    ensures
        r@ == trim_ws(s@),
{
    let len = s.unicode_len();
    let a = ws_end(s, 0, len);
    proof {
        assert(s@.skip(0) =~= s@);
    }
    if a == len {
        let r = s.substring_char(len, len);
        assert(r@ =~= trim_ws(s@));
        r
    } else {
        let b = ws_start_back(s, len, len);
        proof {
            assert(s@.take(len as int) =~= s@);
            lemma_leading_ws(s@);
            lemma_trailing_ws(s@);
            if a >= b {
                assert(is_ws_char(s@[a as int]));
                assert(false);
            }
        }
        let r = s.substring_char(a, b);
        assert(r@ =~= trim_ws(s@));
        r
    }
}

} // verus!
