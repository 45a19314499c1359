//! Whitespace tokenization, token lookup, and decimal parsing for the
//! command and telemetry surfaces.

use vstd::prelude::*;

verus! {

/// A separator between tokens of a raw status line or a command line.
pub open spec fn is_space(c: char) -> bool {
    c == ' ' || c == '\t' || c == '\r' || c == '\n'
}

/// The maximal non-space prefix of `s`.
pub open spec fn take_token(s: Seq<char>) -> Seq<char>
    decreases s.len(),
{
    if s.len() == 0 || is_space(s[0]) {
        Seq::empty()
    } else {
        seq![s[0]] + take_token(s.skip(1))
    }
}

proof fn lemma_take_token_len(s: Seq<char>)
    ensures
        take_token(s).len() <= s.len(),
        s.len() > 0 && !is_space(s[0]) ==> take_token(s).len() >= 1,
    decreases s.len(),
{
    if s.len() == 0 || is_space(s[0]) {
    } else {
        lemma_take_token_len(s.skip(1));
    }
}

/// The whitespace-separated tokens of `s`, in order.
pub open spec fn tokens_of(s: Seq<char>) -> Seq<Seq<char>>
    decreases s.len(),
    via tokens_of_dec
{
    if s.len() == 0 {
        Seq::empty()
    } else if is_space(s[0]) {
        tokens_of(s.skip(1))
    } else {
        seq![take_token(s)] + tokens_of(s.skip(take_token(s).len() as int))
    }
}

#[via_fn]
proof fn tokens_of_dec(s: Seq<char>) {
    if s.len() > 0 && !is_space(s[0]) {
        lemma_take_token_len(s);
    }
}

/// If the first `k` characters of `s` are not spaces and position `k` is a
/// space or the end, the leading token is exactly those `k` characters.
proof fn lemma_take_token_chars(s: Seq<char>, k: int)
    requires
        0 <= k <= s.len(),
        forall|m: int| 0 <= m < k ==> !is_space(s[m]),
        k == s.len() || is_space(s[k]),
    ensures
        take_token(s) == s.subrange(0, k),
    decreases k,
{
    if k == 0 {
        assert(take_token(s) =~= s.subrange(0, 0));
    } else {
        assert(!is_space(s[0]));
        assert(forall|m: int| 0 <= m < k - 1 ==> !is_space(s.skip(1)[m]));
        lemma_take_token_chars(s.skip(1), k - 1);
        assert(s.skip(1).subrange(0, k - 1) =~= s.subrange(1, k));
        assert(take_token(s) =~= s.subrange(0, k));
    }
}

fn char_is_space(c: char) -> (b: bool)
    ensures
        b == is_space(c),
{
    c == ' ' || c == '\t' || c == '\r' || c == '\n'
}

/// Splits `s` on whitespace; the result views to exactly `tokens_of(s@)`.
pub fn tokenize(s: &str) -> (tokens: Vec<String>)
    ensures
        tokens@.map_values(|t: String| t@) == tokens_of(s@),
{
    let n: usize = s.unicode_len();
    let mut tokens: Vec<String> = Vec::new();
    let mut i: usize = 0;
    proof {
        assert(s@.skip(0) =~= s@);
        assert(tokens@.map_values(|t: String| t@) + tokens_of(s@) =~= tokens_of(s@));
    }
    while i < n
        invariant
            n == s@.len(),
            i <= n,
            tokens_of(s@) == tokens@.map_values(|t: String| t@) + tokens_of(s@.skip(i as int)),
        decreases n - i,
    {
        let c = s.get_char(i);
        if char_is_space(c) {
            proof {
                let rest = s@.skip(i as int);
                assert(rest[0] == s@[i as int]);
                assert(rest.skip(1) =~= s@.skip(i as int + 1));
            }
            i = i + 1;
        } else {
            let start = i;
            let mut j: usize = i + 1;
            while j < n && !char_is_space(s.get_char(j))
                invariant
                    n == s@.len(),
                    start < j <= n,
                    forall|m: int| start <= m < j ==> !is_space(s@[m]),
                decreases n - j,
            {
                j = j + 1;
            }
            let tok = s.substring_char(start, j).to_owned();
            let ghost prev = tokens@;
            tokens.push(tok);
            proof {
                let rest = s@.skip(start as int);
                assert(forall|m: int| 0 <= m < j - start ==> rest[m] == s@[m + start]);
                lemma_take_token_chars(rest, j - start);
                assert(rest.subrange(0, j - start) =~= s@.subrange(start as int, j as int));
                assert(rest.skip(j - start) =~= s@.skip(j as int));
                assert(tokens@.map_values(|t: String| t@) =~= prev.map_values(|t: String| t@)
                    + seq![s@.subrange(start as int, j as int)]);
                assert(tokens_of(s@) =~= tokens@.map_values(|t: String| t@)
                    + tokens_of(s@.skip(j as int)));
            }
            i = j;
        }
    }
    proof {
        assert(s@.skip(n as int) =~= Seq::<char>::empty());
        assert(tokens_of(s@) =~= tokens@.map_values(|t: String| t@));
    }
    tokens
}

/// The token right after the first token equal to `key`, if both exist.
pub open spec fn lookup_value(tokens: Seq<Seq<char>>, key: Seq<char>) -> Option<Seq<char>>
    decreases tokens.len(),
{
    if tokens.len() == 0 {
        None
    } else if tokens[0] == key {
        if tokens.len() >= 2 {
            Some(tokens[1])
        } else {
            None
        }
    } else {
        lookup_value(tokens.skip(1), key)
    }
}

/// Finds the value token that follows the first occurrence of `key`.
pub fn find_value(tokens: &Vec<String>, key: &str) -> (r: Option<String>)
    ensures
        match r {
            Some(v) => lookup_value(tokens@.map_values(|t: String| t@), key@) == Some(v@),
            None => lookup_value(tokens@.map_values(|t: String| t@), key@) is None,
        },
{
    let ghost ts = tokens@.map_values(|t: String| t@);
    let key_string = key.to_owned();
    let n = tokens.len();
    let mut i: usize = 0;
    proof {
        assert(ts.skip(0) =~= ts);
    }
    while i < n
        invariant
            n == tokens@.len(),
            i <= n,
            ts == tokens@.map_values(|t: String| t@),
            key_string@ == key@,
            lookup_value(ts, key@) == lookup_value(ts.skip(i as int), key@),
        decreases n - i,
    {
        proof {
            assert(ts.skip(i as int)[0] == ts[i as int]);
        }
        if tokens[i].eq(&key_string) {
            if i + 1 < n {
                proof {
                    assert(ts.skip(i as int)[1] == ts[i as int + 1]);
                }
                return Some(tokens[i + 1].clone());
            } else {
                return None;
            }
        }
        proof {
            assert(ts.skip(i as int).skip(1) =~= ts.skip(i as int + 1));
        }
        i = i + 1;
    }
    proof {
        assert(ts.skip(n as int) =~= Seq::<Seq<char>>::empty());
    }
    None
}

/// Character-wise equality of two string slices.
pub fn str_eq(a: &str, b: &str) -> (r: bool)
    ensures
        r == (a@ == b@),
{
    let sa = a.to_owned();
    let sb = b.to_owned();
    sa.eq(&sb)
}

/// A decimal digit.
pub open spec fn is_digit(c: char) -> bool {
    '0' as u32 <= c as u32 && c as u32 <= '9' as u32
}

pub open spec fn digit_val(c: char) -> int {
    c as u32 - '0' as u32
}

/// A non-empty, all-digit character sequence.
pub open spec fn all_digits(s: Seq<char>) -> bool {
    s.len() > 0 && forall|m: int| 0 <= m < s.len() ==> is_digit(s[m])
}

/// The value of a digit sequence read in base ten.
pub open spec fn digits_val(s: Seq<char>) -> int
    decreases s.len(),
{
    if s.len() == 0 {
        0
    } else {
        digits_val(s.drop_last()) * 10 + digit_val(s.last())
    }
}

proof fn lemma_digits_val_nonneg(s: Seq<char>)
    requires
        forall|m: int| 0 <= m < s.len() ==> is_digit(s[m]),
    ensures
        digits_val(s) >= 0,
    decreases s.len(),
{
    if s.len() > 0 {
        lemma_digits_val_nonneg(s.drop_last());
    }
}

/// Reading more digits never shrinks the value.
proof fn lemma_digits_val_prefix(s: Seq<char>, k: int)
    requires
        forall|m: int| 0 <= m < s.len() ==> is_digit(s[m]),
        0 <= k <= s.len(),
    ensures
        digits_val(s.subrange(0, k)) <= digits_val(s),
    decreases s.len() - k,
{
    if k == s.len() {
        assert(s.subrange(0, k) =~= s);
    } else {
        lemma_digits_val_prefix(s, k + 1);
        let p = s.subrange(0, k + 1);
        assert(p.drop_last() =~= s.subrange(0, k));
        assert(p.last() == s[k]);
        lemma_digits_val_nonneg(s.subrange(0, k));
        assert(digits_val(s.subrange(0, k)) <= digits_val(p)) by {
            assert(digits_val(p) == digits_val(s.subrange(0, k)) * 10 + digit_val(s[k]));
        }
    }
}

/// Parses a non-empty decimal token into a `usize`; rejects anything else,
/// including values too large for the machine word.
pub fn parse_usize(t: &str) -> (r: Option<usize>)
    ensures
        match r {
            Some(v) => all_digits(t@) && v == digits_val(t@),
            None => !(all_digits(t@) && digits_val(t@) <= usize::MAX),
        },
{
    let n = t.unicode_len();
    if n == 0 {
        return None;
    }
    let mut val: usize = 0;
    let mut i: usize = 0;
    while i < n
        invariant
            n == t@.len(),
            0 < n,
            i <= n,
            forall|m: int| 0 <= m < i ==> is_digit(t@[m]),
            val == digits_val(t@.subrange(0, i as int)),
        decreases n - i,
    {
        let c = t.get_char(i);
        if !(c >= '0' && c <= '9') {
            return None;
        }
        let d: usize = (c as u32 as usize) - ('0' as u32 as usize);
        if val > (usize::MAX - d) / 10 {
            proof {
                let p = t@.subrange(0, i as int + 1);
                assert(p.drop_last() =~= t@.subrange(0, i as int));
                assert(p.last() == t@[i as int]);
                assert(val * 10 + d > usize::MAX) by (nonlinear_arith)
                    requires
                        val > (usize::MAX - d) / 10,
                        d <= 9,
                {
                }
                assert(digits_val(p) > usize::MAX);
                if all_digits(t@) {
                    lemma_digits_val_prefix(t@, i as int + 1);
                }
            }
            return None;
        }
        proof {
            assert(val * 10 + d <= usize::MAX) by (nonlinear_arith)
                requires
                    val <= (usize::MAX - d) / 10,
                    d <= 9,
            {
            }
            let p = t@.subrange(0, i as int + 1);
            assert(p.drop_last() =~= t@.subrange(0, i as int));
            assert(p.last() == t@[i as int]);
        }
        val = val * 10 + d;
        i = i + 1;
    }
    proof {
        assert(t@.subrange(0, n as int) =~= t@);
    }
    Some(val)
}

} // verus!
