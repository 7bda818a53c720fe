//! Splitting a string into whitespace-separated tokens, as
//! `str::split_whitespace` does: the tokens are the maximal nonempty runs of
//! non-whitespace characters, in order.

use vstd::prelude::*;
use crate::whitespace::{is_ws_char, is_whitespace_char};

verus! {

/// Length of the leading run of non-whitespace characters of `s`.
pub open spec fn leading_token_len(s: Seq<char>) -> nat
    decreases s.len(),
{
    if s.len() == 0 || is_ws_char(s[0]) {
        0
    } else {
        1 + leading_token_len(s.drop_first())
    }
}

proof fn lemma_leading_token_len_le(s: Seq<char>)
    ensures
        leading_token_len(s) <= s.len(),
    decreases s.len(),
{
    if s.len() == 0 || is_ws_char(s[0]) {
    } else {
        lemma_leading_token_len_le(s.drop_first());
    }
}

/// The whitespace-separated tokens of `s`: the maximal nonempty runs of
/// non-whitespace characters, in order.
pub open spec fn split_ws(s: Seq<char>) -> Seq<Seq<char>>
    decreases s.len(),
    via split_ws_decreases
{
    if s.len() == 0 {
        Seq::empty()
    } else if is_ws_char(s[0]) {
        split_ws(s.drop_first())
    } else {
        seq![s.take(leading_token_len(s) as int)]
            + split_ws(s.skip(leading_token_len(s) as int))
    }
}

#[via_fn]
proof fn split_ws_decreases(s: Seq<char>) {
    if s.len() > 0 && !is_ws_char(s[0]) {
        lemma_leading_token_len_le(s);
    }
}

/// The length of the leading token counts one more character each time a
/// non-whitespace character is put in front.
proof fn lemma_leading_token_len_skip(s: Seq<char>, i: int)
    requires
        0 <= i < s.len(),
        !is_ws_char(s[i]),
    ensures
        leading_token_len(s.skip(i)) == 1 + leading_token_len(s.skip(i + 1)),
{
    assert(s.skip(i)[0] == s[i]);
    assert(s.skip(i).drop_first() =~= s.skip(i + 1));
}

/// Index `j` of the first whitespace character at or after `i`, or the length
/// of `s` if there is none: the token starting at `i` ends at `j`.
fn token_end(s: &str, i: usize, len: usize) -> (j: usize)
    requires
        i <= len,
        len == s@.len(),
    ensures
        i <= j <= len,
        j - i == leading_token_len(s@.skip(i as int)),
    decreases len - i,
{
    if i == len {
        assert(s@.skip(i as int) =~= Seq::<char>::empty());
        i
    } else {
        let c = s.get_char(i);
        proof {
            assert(s@.skip(i as int)[0] == s@[i as int]);
        }
        if is_whitespace_char(c) {
            i
        } else {
            proof {
                lemma_leading_token_len_skip(s@, i as int);
            }
            token_end(s, i + 1, len)
        }
    }
}

/// The tokens of the suffix of `s` that starts at character `i`.
fn split_from(s: &str, i: usize, len: usize) -> (r: Vec<String>)
    requires
        i <= len,
        len == s@.len(),
    ensures
        r.deep_view() == split_ws(s@.skip(i as int)),
    decreases len - i,
{
    if i == len {
        let r: Vec<String> = Vec::new();
        assert(s@.skip(i as int) =~= Seq::<char>::empty());
        assert(r.deep_view() =~= split_ws(s@.skip(i as int)));
        r
    } else {
        let c = s.get_char(i);
        proof {
            assert(s@.skip(i as int)[0] == s@[i as int]);
        }
        if is_whitespace_char(c) {
            let r = split_from(s, i + 1, len);
            proof {
                assert(s@.skip(i as int).drop_first() =~= s@.skip(i as int + 1));
            }
            r
        } else {
            let j = token_end(s, i, len);
            let tok = String::from_str(s.substring_char(i, j));
            let mut r = split_from(s, j, len);
            let ghost rest = split_ws(s@.skip(j as int));
            r.insert(0, tok);
            proof {
                let t = s@.skip(i as int);
                let n = leading_token_len(t) as int;
                assert(j - i == n);
                assert(t.take(n) =~= s@.subrange(i as int, j as int));
                assert(t.skip(n) =~= s@.skip(j as int));
                assert(split_ws(t) == seq![tok@] + rest);
                assert(r.deep_view() =~= seq![tok@] + rest);
            }
            r
        }
    }
}

/// The whitespace-separated tokens of `s`, each as an owned `String`, in
/// order, as `str::split_whitespace` yields them.
pub fn split_whitespace_tokens(s: &str) -> (r: Vec<String>)
    ensures
        r.deep_view() == split_ws(s@),
{
    let len = s.unicode_len();
    let r = split_from(s, 0, len);
    proof {
        assert(s@.skip(0) =~= s@);
    }
    r
}

} // verus!
