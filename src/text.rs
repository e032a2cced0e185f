//! Character-level helpers shared by the header logic.

use vstd::prelude::*;
use vstd::string::*;

verus! {

/// `p` is a prefix of `s`.
pub open spec fn is_prefix(p: Seq<char>, s: Seq<char>) -> bool {
    p.len() <= s.len() && s.subrange(0, p.len() as int) == p
}

/// Whether the characters of `s` begin with those of `p`.
pub fn starts_with(s: &str, p: &str) -> (r: bool)
    ensures
        r == is_prefix(p@, s@),
{
    let n = s.unicode_len();
    let m = p.unicode_len();
    if m > n {
        return false;
    }
    let mut i: usize = 0;
    while i < m
        invariant
            m == p@.len(),
            n == s@.len(),
            m <= n,
            i <= m,
            forall|j: int| 0 <= j < i ==> s@[j] == p@[j],
        decreases m - i,
    {
        if s.get_char(i) != p.get_char(i) {
            return false;
        }
        i = i + 1;
    }
    assert(s@.subrange(0, m as int) =~= p@);
    true
}

/// The decimal digits of `n`, most significant first, without leading zeros.
pub open spec fn decimal(n: nat) -> Seq<char>
    decreases n,
{
    if n < 10 {
        seq![digit_char(n)]
    } else {
        decimal(n / 10).push(digit_char(n % 10))
    }
}

pub open spec fn digit_char(d: nat) -> char {
    if d == 0 { '0' }
    else if d == 1 { '1' }
    else if d == 2 { '2' }
    else if d == 3 { '3' }
    else if d == 4 { '4' }
    else if d == 5 { '5' }
    else if d == 6 { '6' }
    else if d == 7 { '7' }
    else if d == 8 { '8' }
    else { '9' }
}

fn digit_str(d: u64) -> (r: &'static str)
    requires
        d < 10,
    ensures
        r@ == seq![digit_char(d as nat)],
{
    let r = if d == 0 { "0" }
    else if d == 1 { "1" }
    else if d == 2 { "2" }
    else if d == 3 { "3" }
    else if d == 4 { "4" }
    else if d == 5 { "5" }
    else if d == 6 { "6" }
    else if d == 7 { "7" }
    else if d == 8 { "8" }
    else { "9" };
    proof {
        reveal_strlit("0");
        reveal_strlit("1");
        reveal_strlit("2");
        reveal_strlit("3");
        reveal_strlit("4");
        reveal_strlit("5");
        reveal_strlit("6");
        reveal_strlit("7");
        reveal_strlit("8");
        reveal_strlit("9");
    }
    r
}

/// Appends the decimal form of `n` to `out`.
pub fn push_decimal(out: &mut String, n: u64)
    ensures
        final(out)@ == old(out)@ + decimal(n as nat),
    decreases n,
{
    if n < 10 {
        out.append(digit_str(n));
    } else {
        push_decimal(out, n / 10);
        out.append(digit_str(n % 10));
        proof {
            assert(decimal(n as nat) == decimal((n / 10) as nat).push(digit_char((n % 10) as nat)));
        }
        assert(final(out)@ =~= old(out)@ + decimal(n as nat));
    }
}

/// A byte that may stand in a header value read as text: visible ASCII or tab.
pub open spec fn visible_ascii(b: u8) -> bool {
    (32 <= b && b < 127) || b == 9
}

/// Every byte of `bs` may stand in a header value read as text.
pub open spec fn is_header_text(bs: Seq<u8>) -> bool {
    forall|i: int| 0 <= i < bs.len() ==> visible_ascii(#[trigger] bs[i])
}

/// The characters whose codes are the bytes of `bs`.
pub open spec fn ascii_chars(bs: Seq<u8>) -> Seq<char> {
    bs.map_values(|b: u8| b as char)
}

/// A character that a header value may hold: tab, or anything from space up
/// but the delete character.
pub open spec fn header_char(c: char) -> bool {
    c == '\t' || (c as u32 >= 32 && c as u32 != 127)
}

/// Every character of `s` may stand in a header value.
pub open spec fn is_header_value(s: Seq<char>) -> bool {
    forall|i: int| 0 <= i < s.len() ==> header_char(#[trigger] s[i])
}

/// Relies on std::str::from_utf8: ASCII bytes are valid UTF-8 and decode to
/// the characters with the same codes.
#[verifier::external_body]
fn ascii_string(bs: &[u8]) -> (r: String)
    requires
        forall|i: int| 0 <= i < bs@.len() ==> bs@[i] < 128,
    ensures
        r@ == ascii_chars(bs@),
{
    match std::str::from_utf8(bs) {
        Ok(s) => s.to_string(),
        Err(_) => String::new(),
    }
}

/// The text of a header value, or `None` where a byte is not visible ASCII.
pub fn header_text(bs: &[u8]) -> (r: Option<String>)
    ensures
        r is Some <==> is_header_text(bs@),
        r matches Some(s) ==> s@ == ascii_chars(bs@),
{
    let mut i: usize = 0;
    while i < bs.len()
        invariant
            i <= bs@.len(),
            forall|j: int| 0 <= j < i ==> visible_ascii(#[trigger] bs@[j]),
        decreases bs@.len() - i,
    {
        let b = bs[i];
        if !((32 <= b && b < 127) || b == 9) {
            return None;
        }
        i = i + 1;
    }
    Some(ascii_string(bs))
}

/// Whether every character of `s` may stand in a header value.
pub fn check_header_value(s: &str) -> (r: bool)
    ensures
        r == is_header_value(s@),
{
    let n = s.unicode_len();
    let mut i: usize = 0;
    while i < n
        invariant
            n == s@.len(),
            i <= n,
            forall|j: int| 0 <= j < i ==> header_char(#[trigger] s@[j]),
        decreases n - i,
    {
        let c = s.get_char(i);
        if !(c == '\t' || (c as u32 >= 32 && c as u32 != 127)) {
            return false;
        }
        i = i + 1;
    }
    true
}

} // verus!
