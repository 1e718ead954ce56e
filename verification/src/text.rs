//! Verified text utilities: the whitespace set the engine recognizes,
//! trimming, string equality, prefix stripping, quote-aware argument
//! splitting, and decimal rendering of integers.

use vstd::prelude::*;
use vstd::string::*;

verus! {

/// The whitespace characters the engine recognizes when trimming text and
/// separating arguments.
pub open spec fn is_space_char(c: char) -> bool {
    c == ' ' || c == '\t' || c == '\n' || c == '\r' || c == '\u{b}' || c == '\u{c}'
}

/// Exec check for [`is_space_char`].
pub fn is_space(c: char) -> (r: bool)
    ensures
        r == is_space_char(c),
{
    c == ' ' || c == '\t' || c == '\n' || c == '\r' || c == '\u{b}' || c == '\u{c}'
}

/// The text with leading recognized whitespace removed.
pub open spec fn trim_start_spec(s: Seq<char>) -> Seq<char>
    decreases s.len(),
{
    if s.len() > 0 && is_space_char(s[0]) {
        trim_start_spec(s.drop_first())
    } else {
        s
    }
}

/// The text with trailing recognized whitespace removed.
pub open spec fn trim_end_spec(s: Seq<char>) -> Seq<char>
    decreases s.len(),
{
    if s.len() > 0 && is_space_char(s[s.len() - 1]) {
        trim_end_spec(s.drop_last())
    } else {
        s
    }
}

/// The text with recognized whitespace removed from both ends.
pub open spec fn trim_spec(s: Seq<char>) -> Seq<char> {
    trim_end_spec(trim_start_spec(s))
}

proof fn lemma_trim_start_is(s: Seq<char>, i: int)
    requires
        0 <= i <= s.len(),
        forall|k: int| 0 <= k < i ==> is_space_char(s[k]),
        i < s.len() ==> !is_space_char(s[i]),
    ensures
        trim_start_spec(s) == s.subrange(i, s.len() as int),
    decreases i,
{
    if i == 0 {
        assert(trim_start_spec(s) == s);
        assert(s.subrange(0, s.len() as int) =~= s);
    } else {
        assert(is_space_char(s[0]));
        let s1 = s.drop_first();
        assert(forall|k: int| 0 <= k < i - 1 ==> is_space_char(s1[k]));
        lemma_trim_start_is(s1, i - 1);
        assert(s1.subrange(i - 1, s1.len() as int) =~= s.subrange(i, s.len() as int));
    }
}

proof fn lemma_trim_end_is(s: Seq<char>, j: int)
    requires
        0 <= j <= s.len(),
        forall|k: int| j <= k < s.len() ==> is_space_char(s[k]),
        j > 0 ==> !is_space_char(s[j - 1]),
    ensures
        trim_end_spec(s) == s.subrange(0, j),
    decreases s.len(),
{
    if j == s.len() {
        if s.len() == 0 {
            assert(s.subrange(0, 0) =~= s);
        } else {
            assert(!is_space_char(s[s.len() - 1]));
            assert(s.subrange(0, s.len() as int) =~= s);
        }
    } else {
        assert(is_space_char(s[s.len() - 1]));
        let s1 = s.drop_last();
        assert(forall|k: int| j <= k < s1.len() ==> is_space_char(s1[k]));
        lemma_trim_end_is(s1, j);
        assert(s1.subrange(0, j) =~= s.subrange(0, j));
    }
}

/// Removes recognized whitespace from both ends of the text.
pub fn trim(s: &str) -> (r: &str)
    ensures
        r@ == trim_spec(s@),
{
    let n: usize = s.unicode_len();
    let mut i: usize = 0;
    while i < n && is_space(s.get_char(i))
        invariant
            0 <= i <= n,
            n == s@.len(),
            forall|k: int| 0 <= k < i ==> is_space_char(s@[k]),
        decreases n - i,
    {
        i += 1;
    }
    let mut j: usize = n;
    while j > i && is_space(s.get_char(j - 1))
        invariant
            i <= j <= n,
            n == s@.len(),
            forall|k: int| j <= k < n ==> is_space_char(s@[k]),
        decreases j,
    {
        j -= 1;
    }
    let r = s.substring_char(i, j);
    proof {
        lemma_trim_start_is(s@, i as int);
        let t = s@.subrange(i as int, n as int);
        assert(forall|k: int| j - i <= k < t.len() ==> is_space_char(t[k]));
        lemma_trim_end_is(t, j - i);
        assert(t.subrange(0, j - i) =~= s@.subrange(i as int, j as int));
    }
    r
}

/// Verified string comparison by contents.
pub fn str_eq(a: &str, b: &str) -> (r: bool)
    ensures
        r == (a@ == b@),
{
    let na: usize = a.unicode_len();
    let nb: usize = b.unicode_len();
    if na != nb {
        return false;
    }
    let mut i: usize = 0;
    while i < na
        invariant
            0 <= i <= na,
            na == a@.len(),
            nb == b@.len(),
            na == nb,
            forall|k: int| 0 <= k < i ==> a@[k] == b@[k],
        decreases na - i,
    {
        if a.get_char(i) != b.get_char(i) {
            return false;
        }
        i += 1;
    }
    proof {
        assert(a@ =~= b@);
    }
    true
}

/// Whether `p` is a literal prefix of `s`.
pub open spec fn is_prefix_spec(p: Seq<char>, s: Seq<char>) -> bool {
    p.len() <= s.len() && p == s.subrange(0, p.len() as int)
}

/// Returns the text after the prefix `p` when `s` starts with it.
pub fn strip_prefix_str<'a>(s: &'a str, p: &str) -> (r: Option<&'a str>)
    ensures
        match r {
            Some(t) => is_prefix_spec(p@, s@) && t@ == s@.subrange(
                p@.len() as int,
                s@.len() as int,
            ),
            None => !is_prefix_spec(p@, s@),
        },
{
    let n: usize = s.unicode_len();
    let m: usize = p.unicode_len();
    if m > n {
        proof {
            assert(!is_prefix_spec(p@, s@));
        }
        return None;
    }
    let mut i: usize = 0;
    while i < m
        invariant
            0 <= i <= m <= n,
            n == s@.len(),
            m == p@.len(),
            forall|k: int| 0 <= k < i ==> p@[k] == s@[k],
        decreases m - i,
    {
        if p.get_char(i) != s.get_char(i) {
            proof {
                assert(p@[i as int] != s@.subrange(0, m as int)[i as int]);
            }
            return None;
        }
        i += 1;
    }
    let t = s.substring_char(m, n);
    proof {
        assert(p@ =~= s@.subrange(0, m as int));
    }
    Some(t)
}

/// Index of the first recognized whitespace character, or the length when
/// there is none.
pub open spec fn find_space_spec(s: Seq<char>) -> nat
    decreases s.len(),
{
    if s.len() == 0 {
        0
    } else if is_space_char(s[0]) {
        0
    } else {
        1 + find_space_spec(s.drop_first())
    }
}

/// Index of the first occurrence of `q`, or the length when there is none.
pub open spec fn find_char_spec(s: Seq<char>, q: char) -> nat
    decreases s.len(),
{
    if s.len() == 0 {
        0
    } else if s[0] == q {
        0
    } else {
        1 + find_char_spec(s.drop_first(), q)
    }
}

proof fn lemma_find_space_props(s: Seq<char>)
    ensures
        find_space_spec(s) <= s.len(),
        forall|k: int| 0 <= k < find_space_spec(s) ==> !is_space_char(s[k]),
        find_space_spec(s) < s.len() ==> is_space_char(s[find_space_spec(s) as int]),
    decreases s.len(),
{
    if s.len() > 0 && !is_space_char(s[0]) {
        let s1 = s.drop_first();
        lemma_find_space_props(s1);
        let f = find_space_spec(s) as int;
        assert forall|k: int| 0 <= k < f implies !is_space_char(s[k]) by {
            if k >= 1 {
                assert(s[k] == s1[k - 1]);
            }
        }
        if f < s.len() {
            assert(s[f] == s1[f - 1]);
        }
    }
}

proof fn lemma_find_char_props(s: Seq<char>, q: char)
    ensures
        find_char_spec(s, q) <= s.len(),
        forall|k: int| 0 <= k < find_char_spec(s, q) ==> s[k] != q,
        find_char_spec(s, q) < s.len() ==> s[find_char_spec(s, q) as int] == q,
    decreases s.len(),
{
    if s.len() > 0 && s[0] != q {
        let s1 = s.drop_first();
        lemma_find_char_props(s1, q);
        let f = find_char_spec(s, q) as int;
        assert forall|k: int| 0 <= k < f implies s[k] != q by {
            if k >= 1 {
                assert(s[k] == s1[k - 1]);
            }
        }
        if f < s.len() {
            assert(s[f] == s1[f - 1]);
        }
    }
}

/// Finds the first recognized whitespace character of `s`.
pub fn find_space(s: &str) -> (r: usize)
    ensures
        r == find_space_spec(s@),
        r <= s@.len(),
{
    let n: usize = s.unicode_len();
    let mut i: usize = 0;
    while i < n && !is_space(s.get_char(i))
        invariant
            0 <= i <= n,
            n == s@.len(),
            forall|k: int| 0 <= k < i ==> !is_space_char(s@[k]),
        decreases n - i,
    {
        i += 1;
    }
    proof {
        lemma_find_space_props(s@);
        let f = find_space_spec(s@) as int;
        if f < i {
            assert(!is_space_char(s@[f]));
        }
        if i < f {
            assert(!is_space_char(s@[i as int]));
        }
    }
    i
}

/// Finds the first occurrence of `q` in `s`.
pub fn find_char(s: &str, q: char) -> (r: usize)
    ensures
        r == find_char_spec(s@, q),
        r <= s@.len(),
{
    let n: usize = s.unicode_len();
    let mut i: usize = 0;
    while i < n && s.get_char(i) != q
        invariant
            0 <= i <= n,
            n == s@.len(),
            forall|k: int| 0 <= k < i ==> s@[k] != q,
        decreases n - i,
    {
        i += 1;
    }
    proof {
        lemma_find_char_props(s@, q);
        let f = find_char_spec(s@, q) as int;
        if f < i {
            assert(s@[f] != q);
        }
        if i < f {
            assert(s@[i as int] != q);
        }
    }
    i
}

/// Argument tokenization: unquoted runs split on whitespace; a span delimited
/// by the quote character `q` is one token even when it contains whitespace;
/// an unclosed quote takes the rest of the text as one token.
pub open spec fn split_args_spec(s: Seq<char>, q: char) -> Seq<Seq<char>>
    decreases s.len(),
    via split_args_spec_decreases
{
    if s.len() == 0 {
        Seq::empty()
    } else if is_space_char(s[0]) {
        split_args_spec(s.drop_first(), q)
    } else if s[0] == q {
        let rest = s.drop_first();
        let c = find_char_spec(rest, q);
        if c < rest.len() {
            seq![rest.subrange(0, c as int)] + split_args_spec(
                rest.subrange(c as int + 1, rest.len() as int),
                q,
            )
        } else {
            seq![rest]
        }
    } else {
        let e = find_space_spec(s);
        seq![s.subrange(0, e as int)] + split_args_spec(s.subrange(e as int, s.len() as int), q)
    }
}

#[via_fn]
proof fn split_args_spec_decreases(s: Seq<char>, q: char) {
    if s.len() > 0 && !is_space_char(s[0]) {
        if s[0] == q {
            lemma_find_char_props(s.drop_first(), q);
        } else {
            lemma_find_space_props(s);
        }
    }
}

fn split_args_into(s: &str, q: char, out: &mut Vec<String>)
    ensures
        final(out).deep_view() == old(out).deep_view() + split_args_spec(s@, q),
    decreases s@.len(),
{
    let n: usize = s.unicode_len();
    if n == 0 {
        proof {
            assert(out.deep_view() =~= out.deep_view() + split_args_spec(s@, q));
        }
        return ;
    }
    let c0 = s.get_char(0);
    if is_space(c0) {
        let t = s.substring_char(1, n);
        proof {
            assert(t@ =~= s@.drop_first());
        }
        split_args_into(t, q, out);
    } else if c0 == q {
        let rest = s.substring_char(1, n);
        proof {
            assert(rest@ =~= s@.drop_first());
        }
        let c: usize = find_char(rest, q);
        if c < n - 1 {
            let tok = rest.substring_char(0, c);
            let ghost dv0 = out.deep_view();
            out.push(tok.to_owned());
            proof {
                assert(out.deep_view() =~= dv0.push(tok@));
            }
            let tail = rest.substring_char(c + 1, n - 1);
            let ghost dv1 = out.deep_view();
            split_args_into(tail, q, out);
            proof {
                assert(out.deep_view() =~= dv0 + split_args_spec(s@, q));
            }
        } else {
            let ghost dv0 = out.deep_view();
            out.push(rest.to_owned());
            proof {
                assert(out.deep_view() =~= dv0 + split_args_spec(s@, q));
            }
        }
    } else {
        let e: usize = find_space(s);
        proof {
            assert(e >= 1);
        }
        let tok = s.substring_char(0, e);
        let ghost dv0 = out.deep_view();
        out.push(tok.to_owned());
        proof {
            assert(out.deep_view() =~= dv0.push(tok@));
        }
        let tail = s.substring_char(e, n);
        split_args_into(tail, q, out);
        proof {
            assert(out.deep_view() =~= dv0 + split_args_spec(s@, q));
        }
    }
}

/// The character for a single decimal digit.
pub open spec fn digit_char(d: nat) -> char {
    if d == 0 {
        '0'
    } else if d == 1 {
        '1'
    } else if d == 2 {
        '2'
    } else if d == 3 {
        '3'
    } else if d == 4 {
        '4'
    } else if d == 5 {
        '5'
    } else if d == 6 {
        '6'
    } else if d == 7 {
        '7'
    } else if d == 8 {
        '8'
    } else {
        '9'
    }
}

/// Decimal digits of a natural number, most significant first.
pub open spec fn dec_str(n: nat) -> Seq<char>
    decreases n,
{
    if n < 10 {
        seq![digit_char(n)]
    } else {
        dec_str(n / 10).push(digit_char(n % 10))
    }
}

/// Decimal rendering of an integer, with a leading minus sign when negative.
pub open spec fn int_dec(v: int) -> Seq<char> {
    if v < 0 {
        seq!['-'] + dec_str((0 - v) as nat)
    } else {
        dec_str(v as nat)
    }
}

/// Whether `c` is a decimal digit character.
pub open spec fn is_digit_char(c: char) -> bool {
    c == '0' || c == '1' || c == '2' || c == '3' || c == '4' || c == '5' || c == '6' || c == '7'
        || c == '8' || c == '9'
}

/// The decimal rendering of a natural number holds only digit characters —
/// in particular, no minus sign.
pub proof fn lemma_dec_str_digits(n: nat)
    ensures
        forall|i: int| 0 <= i < dec_str(n).len() ==> is_digit_char(#[trigger] dec_str(n)[i]),
    decreases n,
{
    if n < 10 {
        assert(dec_str(n) == seq![digit_char(n)]);
    } else {
        lemma_dec_str_digits(n / 10);
        let prefix = dec_str(n / 10);
        assert(dec_str(n) == prefix.push(digit_char(n % 10)));
        assert forall|i: int| 0 <= i < dec_str(n).len() implies is_digit_char(
            #[trigger] dec_str(n)[i],
        ) by {
            if i < prefix.len() {
                assert(dec_str(n)[i] == prefix[i]);
            } else {
                assert(dec_str(n)[i] == digit_char(n % 10));
            }
        }
    }
}

fn digit_str(d: u64) -> (r: &'static str)
    requires
        d < 10,
    ensures
        r@ =~= seq![digit_char(d as nat)],
{
    let r: &'static str = if d == 0 {
        "0"
    } else if d == 1 {
        "1"
    } else if d == 2 {
        "2"
    } else if d == 3 {
        "3"
    } else if d == 4 {
        "4"
    } else if d == 5 {
        "5"
    } else if d == 6 {
        "6"
    } else if d == 7 {
        "7"
    } else if d == 8 {
        "8"
    } else {
        "9"
    };
    proof {
        reveal_strlit("0");
        reveal_strlit("1");
        reveal_strlit("2");
        reveal_strlit("3");
        reveal_strlit("4");
        reveal_strlit("5");
        reveal_strlit("6");
        reveal_strlit("7");
        reveal_strlit("8");
        reveal_strlit("9");
    }
    r
}

fn push_dec(s: &mut String, n: u128)
    ensures
        final(s)@ == old(s)@ + dec_str(n as nat),
    decreases n,
{
    if n >= 10 {
        push_dec(s, n / 10);
    }
    let d: u64 = (n % 10) as u64;
    let ds = digit_str(d);
    s.append(ds);
    proof {
        if n < 10 {
            assert(s@ =~= old(s)@ + dec_str(n as nat));
        } else {
            assert(dec_str(n as nat) == dec_str(n as nat / 10).push(digit_char(n as nat % 10)));
            assert(s@ =~= old(s)@ + dec_str(n as nat));
        }
    }
}

/// Renders an integer in decimal.
pub fn i128_to_dec(v: i128) -> (r: String)
    requires
        v != i128::MIN,
    ensures
        r@ == int_dec(v as int),
{
    let mut s = String::new();
    if v < 0 {
        s.append("-");
        let m: u128 = (-v) as u128;
        push_dec(&mut s, m);
        proof {
            reveal_strlit("-");
            assert(Seq::<char>::empty() + "-"@ =~= seq!['-']);
            assert(s@ =~= int_dec(v as int));
        }
    } else {
        push_dec(&mut s, v as u128);
        proof {
            assert(s@ =~= int_dec(v as int));
        }
    }
    s
}

/// Splits `s` into arguments, honoring spans quoted with `q`.
pub fn split_args(s: &str, q: char) -> (r: Vec<String>)
    ensures
        r.deep_view() == split_args_spec(s@, q),
{
    let mut out: Vec<String> = Vec::new();
    split_args_into(s, q, &mut out);
    proof {
        assert(out.deep_view() =~= split_args_spec(s@, q));
    }
    out
}

} // verus!
