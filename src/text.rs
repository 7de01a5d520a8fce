//! Text building blocks of the wire format: decimal numbers and JSON strings.
use vstd::prelude::*;
use vstd::string::{StrSliceExecFns, StringExecFns};

verus! {

/// Relies on `String::push`: the character is appended at the end.
#[verifier::external_body]
pub(crate) fn push_char(s: &mut String, c: char)
    ensures
        final(s)@ == old(s)@.push(c),
{
    s.push(c);
}

/// The decimal digit for `d < 10`.
pub open spec fn digit_char(d: nat) -> char {
    ((d + '0' as nat) as u32) as char
}

/// The lowercase hexadecimal digit for `d < 16`.
pub open spec fn hex_lower(d: nat) -> char {
    if d < 10 {
        digit_char(d)
    } else {
        ((d - 10 + 'a' as nat) as u32) as char
    }
}

/// Decimal text of `n`, without sign or leading zeros.
pub open spec fn decimal(n: nat) -> Seq<char>
    decreases n,
{
    if n < 10 {
        seq![digit_char(n)]
    } else {
        decimal(n / 10).push(digit_char(n % 10))
    }
}

/// Appends the decimal text of `n`.
pub fn push_decimal(out: &mut String, n: u64)
    ensures
        final(out)@ == old(out)@ + decimal(n as nat),
    decreases n,
{
    if n >= 10 {
        push_decimal(out, n / 10);
    }
    let d = (n % 10) as u8;
    let c = (d + 0x30u8) as char;
    push_char(out, c);
    proof {
        assert(c == digit_char((n % 10) as nat));
    }
}

/// How one character stands inside a JSON string literal: quote, backslash
/// and control characters are escaped, the short forms where JSON has them.
pub open spec fn json_escape_char(c: char) -> Seq<char> {
    if c == '"' {
        seq!['\\', '"']
    } else if c == '\\' {
        seq!['\\', '\\']
    } else if c == '\u{8}' {
        seq!['\\', 'b']
    } else if c == '\t' {
        seq!['\\', 't']
    } else if c == '\n' {
        seq!['\\', 'n']
    } else if c == '\u{c}' {
        seq!['\\', 'f']
    } else if c == '\r' {
        seq!['\\', 'r']
    } else if (c as u32) < 0x20 {
        seq!['\\', 'u', '0', '0', hex_lower((c as u32 / 16) as nat), hex_lower((c as u32 % 16) as nat)]
    } else {
        seq![c]
    }
}

/// The escaped body of a JSON string literal for `s`.
pub open spec fn json_escape(s: Seq<char>) -> Seq<char>
    decreases s.len(),
{
    if s.len() == 0 {
        seq![]
    } else {
        json_escape(s.drop_last()) + json_escape_char(s.last())
    }
}

/// The JSON string literal for `s`, quotes included.
pub open spec fn json_string(s: Seq<char>) -> Seq<char> {
    seq!['"'] + json_escape(s) + seq!['"']
}

fn hex_lower_char(d: u32) -> (c: char)
    requires
        d < 16,
    ensures
        c == hex_lower(d as nat),
{
    if d < 10 {
        ((d as u8) + 0x30u8) as char
    } else {
        ((d as u8) - 10 + 0x61u8) as char
    }
}

fn push_escaped_char(out: &mut String, c: char)
    ensures
        final(out)@ == old(out)@ + json_escape_char(c),
{
    let code = c as u32;
    if c == '"' {
        push_char(out, '\\');
        push_char(out, '"');
    } else if c == '\\' {
        push_char(out, '\\');
        push_char(out, '\\');
    } else if c == '\u{8}' {
        push_char(out, '\\');
        push_char(out, 'b');
    } else if c == '\t' {
        push_char(out, '\\');
        push_char(out, 't');
    } else if c == '\n' {
        push_char(out, '\\');
        push_char(out, 'n');
    } else if c == '\u{c}' {
        push_char(out, '\\');
        push_char(out, 'f');
    } else if c == '\r' {
        push_char(out, '\\');
        push_char(out, 'r');
    } else if code < 0x20 {
        push_char(out, '\\');
        push_char(out, 'u');
        push_char(out, '0');
        push_char(out, '0');
        push_char(out, hex_lower_char(code / 16));
        push_char(out, hex_lower_char(code % 16));
    } else {
        push_char(out, c);
    }
    assert(final(out)@ =~= old(out)@ + json_escape_char(c));
}

/// Appends the JSON string literal for `s`, quotes included.
pub fn push_json_string(out: &mut String, s: &str)
    ensures
        final(out)@ == old(out)@ + json_string(s@),
{
    let ghost start = out@;
    push_char(out, '"');
    let n = s.unicode_len();
    let mut i: usize = 0;
    while i < n
        invariant
            n == s@.len(),
            i <= n,
            out@ == start + seq!['"'] + json_escape(s@.take(i as int)),
        decreases n - i,
    {
        let c = s.get_char(i);
        push_escaped_char(out, c);
        proof {
            let t = s@.take(i + 1);
            assert(t.drop_last() =~= s@.take(i as int));
            assert(t.last() == c);
        }
        i = i + 1;
    }
    push_char(out, '"');
    assert(s@.take(n as int) =~= s@);
    assert(out@ =~= old(out)@ + json_string(s@));
}

} // verus!
