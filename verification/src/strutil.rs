//! Small verified helpers on strings and numbers that the rest of the
//! library builds URLs, query strings and error messages from.

use vstd::prelude::*;

verus! {

/// The character for one decimal digit.
pub open spec fn digit_char(d: int) -> char {
    if d == 0 {
        '0'
    } else if d == 1 {
        '1'
    } else if d == 2 {
        '2'
    } else if d == 3 {
        '3'
    } else if d == 4 {
        '4'
    } else if d == 5 {
        '5'
    } else if d == 6 {
        '6'
    } else if d == 7 {
        '7'
    } else if d == 8 {
        '8'
    } else {
        '9'
    }
}

/// The decimal rendering of a non-negative integer, most significant
/// digit first.
pub open spec fn dec_digits(v: int) -> Seq<char>
    decreases v,
{
    if v < 10 {
        seq![digit_char(v)]
    } else {
        dec_digits(v / 10).push(digit_char(v % 10))
    }
}

/// Renders a `u16` in decimal, e.g. for HTTP status codes in error text.
pub fn u16_to_dec(v: u16) -> (r: String)
    ensures
        r@ == dec_digits(v as int),
    decreases v,
{
    let d: u16 = v % 10;
    let ds: &str = match d {
        0 => "0",
        1 => "1",
        2 => "2",
        3 => "3",
        4 => "4",
        5 => "5",
        6 => "6",
        7 => "7",
        8 => "8",
        _ => "9",
    };
    proof {
        reveal_strlit("0");
        reveal_strlit("1");
        reveal_strlit("2");
        reveal_strlit("3");
        reveal_strlit("4");
        reveal_strlit("5");
        reveal_strlit("6");
        reveal_strlit("7");
        reveal_strlit("8");
        reveal_strlit("9");
        assert(ds@ =~= seq![digit_char(d as int)]);
    }
    if v < 10 {
        ds.to_owned()
    } else {
        let mut s = u16_to_dec(v / 10);
        s.append(ds);
        proof {
            assert(s@ =~= dec_digits(v as int));
        }
        s
    }
}

/// The literal query-parameter rendering of a boolean.
pub open spec fn bool_view(b: bool) -> Seq<char> {
    if b {
        "true"@
    } else {
        "false"@
    }
}

/// Renders a boolean as its literal query-parameter form.
pub fn bool_str(b: bool) -> (r: &'static str)
    ensures
        r@ == bool_view(b),
{
    if b {
        "true"
    } else {
        "false"
    }
}

/// Whether a character matches a lowercase reference character up to
/// ASCII case: either it is the character itself, or it is the ASCII
/// uppercase letter 32 codepoints below it.
pub open spec fn char_eq_ci(c: char, l: char) -> bool {
    c == l || (65 <= (c as u32) && (c as u32) <= 90 && (c as u32) + 32 == (l as u32))
}

/// Whether a string matches a lowercase reference string up to ASCII case.
pub open spec fn matches_ci(s: Seq<char>, t: Seq<char>) -> bool {
    s.len() == t.len() && (forall|i: int| 0 <= i < s.len() ==> char_eq_ci(s[i], #[trigger] t[i]))
}

/// Compares a string against a lowercase reference string, ignoring the
/// ASCII case of the input.
pub fn eq_ignore_case(s: &str, t: &str) -> (r: bool)
    ensures
        r == matches_ci(s@, t@),
{
    let n: usize = s.unicode_len();
    let m: usize = t.unicode_len();
    if n != m {
        return false;
    }
    let mut i: usize = 0;
    while i < n
        invariant
            0 <= i <= n,
            n == s@.len(),
            n == t@.len(),
            forall|j: int| 0 <= j < i ==> char_eq_ci(s@[j], #[trigger] t@[j]),
        decreases n - i,
    {
        let c: u32 = s.get_char(i) as u32;
        let l: u32 = t.get_char(i) as u32;
        let ok: bool = c == l || (65 <= c && c <= 90 && c + 32 == l);
        if !ok {
            return false;
        }
        i = i + 1;
    }
    true
}

/// Whether an error text is a context prefix followed by an underlying
/// message.
pub open spec fn wrapped(prefix: Seq<char>, e: Seq<char>) -> bool {
    exists|t: Seq<char>| e == #[trigger] (prefix + t)
}

/// Joins a context prefix and an underlying message into one error text.
pub fn concat_str(a: &str, b: &str) -> (r: String)
    ensures
        r@ == a@ + b@,
        wrapped(a@, r@),
{
    let mut s = a.to_owned();
    s.append(b);
    s
}

} // verus!
