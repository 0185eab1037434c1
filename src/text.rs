use vstd::prelude::*;
use vstd::string::*;

verus! {

/// Relies on `String::push`: the character is appended at the end.
#[verifier::external_body]
pub(crate) fn push_char(s: &mut String, c: char)
    ensures
        final(s)@ == old(s)@.push(c),
{
    s.push(c)
}

/// Appends the characters of `t` to `s`.
pub(crate) fn push_text(s: &mut String, t: &str)
    ensures
        final(s)@ == old(s)@ + t@,
{
    s.append(t)
}

/// An owned copy of a text.
pub(crate) fn owned_text(t: &str) -> (r: String)
    ensures
        r@ == t@,
{
    let mut s = String::new();
    s.append(t);
    proof {
        assert(s@ =~= t@);
    }
    s
}

/// The upper-case hexadecimal digit of `d`, for `d < 16`.
pub open spec fn upper_digit(d: nat) -> char {
    if d < 10 {
        ((d + 48) as u8) as char
    } else {
        ((d + 55) as u8) as char
    }
}

/// The lower-case hexadecimal digit of `d`, for `d < 16`.
pub open spec fn lower_digit(d: nat) -> char {
    if d < 10 {
        ((d + 48) as u8) as char
    } else {
        ((d + 87) as u8) as char
    }
}

/// A byte as two upper-case hexadecimal digits.
pub open spec fn byte_hex(b: u8) -> Seq<char> {
    seq![upper_digit(b as nat / 16), upper_digit(b as nat % 16)]
}

/// Bytes as upper-case hexadecimal pairs joined by `:`.
pub open spec fn hex_pairs(b: Seq<u8>) -> Seq<char>
    decreases b.len(),
{
    if b.len() == 0 {
        Seq::empty()
    } else if b.len() == 1 {
        byte_hex(b[0])
    } else {
        hex_pairs(b.drop_last()) + seq![':'] + byte_hex(b.last())
    }
}

/// The decimal digits of `n`, without leading zeros.
pub open spec fn decimal(n: nat) -> Seq<char>
    decreases n,
{
    if n < 10 {
        seq![((n + 48) as u8) as char]
    } else {
        decimal(n / 10).push(((n % 10 + 48) as u8) as char)
    }
}

/// The lower-case hexadecimal digits of `n`, without leading zeros.
pub open spec fn lower_hex(n: nat) -> Seq<char>
    decreases n,
{
    if n < 16 {
        seq![lower_digit(n)]
    } else {
        lower_hex(n / 16).push(lower_digit(n % 16))
    }
}

/// The last `n` lower-case hexadecimal digits of `v`, leading zeros kept.
pub open spec fn fixed_lower_hex(v: nat, n: nat) -> Seq<char>
    decreases n,
{
    if n == 0 {
        Seq::empty()
    } else {
        fixed_lower_hex(v / 16, (n - 1) as nat).push(lower_digit(v % 16))
    }
}

fn upper_digit_char(d: u8) -> (c: char)
    requires
        d < 16,
    ensures
        c == upper_digit(d as nat),
{
    if d < 10 {
        (d + 48) as char
    } else {
        (d + 55) as char
    }
}

fn lower_digit_char(d: u8) -> (c: char)
    requires
        d < 16,
    ensures
        c == lower_digit(d as nat),
{
    if d < 10 {
        (d + 48) as char
    } else {
        (d + 87) as char
    }
}

/// Renders bytes as upper-case hexadecimal pairs joined by `:`
/// (`[0x00, 0xAB]` gives `00:AB`).
pub fn get_bytes_as_hex(bytes: &[u8]) -> (r: String)
    ensures
        r@ == hex_pairs(bytes@),
{
    let mut s = String::new();
    let mut i: usize = 0;
    while i < bytes.len()
        invariant
            0 <= i <= bytes@.len(),
            s@ == hex_pairs(bytes@.subrange(0, i as int)),
        decreases bytes@.len() - i,
    {
        let b = bytes[i];
        proof {
            let p = bytes@.subrange(0, i as int + 1);
            assert(p.drop_last() =~= bytes@.subrange(0, i as int));
            assert(p.last() == b);
        }
        if i > 0 {
            push_char(&mut s, ':');
        }
        push_char(&mut s, upper_digit_char(b / 16));
        push_char(&mut s, upper_digit_char(b % 16));
        proof {
            let p = bytes@.subrange(0, i as int + 1);
            if i == 0 {
                assert(s@ =~= byte_hex(b));
            } else {
                assert(s@ =~= hex_pairs(p.drop_last()) + seq![':'] + byte_hex(p.last()));
            }
        }
        i = i + 1;
    }
    assert(bytes@.subrange(0, bytes@.len() as int) =~= bytes@);
    s
}

/// Appends the decimal digits of `n` to `s`.
pub(crate) fn push_decimal(s: &mut String, n: u64)
    ensures
        final(s)@ == old(s)@ + decimal(n as nat),
    decreases n,
{
    if n >= 10 {
        push_decimal(s, n / 10);
    }
    let d = (n % 10) as u8;
    push_char(s, (d + 48) as char);
    proof {
        if n >= 10 {
            assert(decimal(n as nat) == decimal((n / 10) as nat).push(((n % 10 + 48) as u8) as char));
        }
    }
    assert(final(s)@ =~= old(s)@ + decimal(n as nat));
}

/// Appends the lower-case hexadecimal digits of `n` to `s`.
pub(crate) fn push_lower_hex(s: &mut String, n: u32)
    ensures
        final(s)@ == old(s)@ + lower_hex(n as nat),
    decreases n,
{
    if n >= 16 {
        push_lower_hex(s, n / 16);
    }
    let d = (n % 16) as u8;
    push_char(s, lower_digit_char(d));
    assert(final(s)@ =~= old(s)@ + lower_hex(n as nat));
}

/// Appends the last `n` lower-case hexadecimal digits of `v`, leading
/// zeros kept.
pub(crate) fn push_fixed_lower_hex(s: &mut String, v: u32, n: u32)
    ensures
        final(s)@ == old(s)@ + fixed_lower_hex(v as nat, n as nat),
    decreases n,
{
    if n > 0 {
        push_fixed_lower_hex(s, v / 16, n - 1);
        push_char(s, lower_digit_char((v % 16) as u8));
    }
    assert(final(s)@ =~= old(s)@ + fixed_lower_hex(v as nat, n as nat));
}

} // verus!
