//! Numbers and byte strings as text: decimal and hexadecimal digits, and
//! lists of bytes with a separator between them.
use vstd::prelude::*;
use vstd::string::{StrSliceExecFns, StringExecFns};

verus! {

/// The character of one digit; digits from ten on are lower-case letters.
pub open spec fn digit(d: nat) -> char
    recommends
        d < 16,
{
    "0123456789abcdef"@[d as int]
}

/// `n` in decimal notation, without leading zeros.
pub open spec fn decimal(n: nat) -> Seq<char>
    decreases n,
{
    if n < 10 {
        seq![digit(n)]
    } else {
        decimal(n / 10).push(digit(n % 10))
    }
}

/// `n` in hexadecimal notation, without leading zeros.
pub open spec fn hex(n: nat) -> Seq<char>
    decreases n,
{
    if n < 16 {
        seq![digit(n)]
    } else {
        hex(n / 16).push(digit(n % 16))
    }
}

/// The lowest `width` hexadecimal digits of `n`, leading zeros included.
pub open spec fn hex_fixed(n: nat, width: nat) -> Seq<char>
    decreases width,
{
    if width == 0 {
        Seq::empty()
    } else {
        hex_fixed(n / 16, (width - 1) as nat).push(digit(n % 16))
    }
}

/// `true` or `false`, spelled out.
pub open spec fn truth(b: bool) -> Seq<char> {
    if b {
        "true"@
    } else {
        "false"@
    }
}

/// The parts one after the other, with the separator between each two.
pub open spec fn joined(parts: Seq<Seq<char>>, separator: Seq<char>) -> Seq<char>
    decreases parts.len(),
{
    if parts.len() == 0 {
        Seq::empty()
    } else if parts.len() == 1 {
        parts[0]
    } else {
        joined(parts.drop_last(), separator) + separator + parts.last()
    }
}

/// Each byte as two hexadecimal digits, with the separator between them.
pub open spec fn hex_list(bytes: Seq<u8>, separator: Seq<char>) -> Seq<char> {
    joined(bytes.map_values(|b: u8| hex_fixed(b as nat, 2)), separator)
}

/// Each byte as a decimal number, with the separator between them.
pub open spec fn decimal_list(bytes: Seq<u8>, separator: Seq<char>) -> Seq<char> {
    joined(bytes.map_values(|b: u8| decimal(b as nat)), separator)
}

/// Appends the character of one digit.
fn push_digit(out: &mut String, d: u32)
    requires
        d < 16,
    ensures
        final(out)@ == old(out)@.push(digit(d as nat)),
{
    let digits: &str = "0123456789abcdef";
    proof {
        reveal_strlit("0123456789abcdef");
    }
    let at: usize = d as usize;
    let one: &str = digits.substring_ascii(at, at + 1);
    assert(one@ =~= seq![digit(d as nat)]);
    out.append(one);
    assert(final(out)@ =~= old(out)@.push(digit(d as nat)));
}

/// Appends `n` in decimal notation.
pub fn push_decimal(out: &mut String, n: u32)
    ensures
        final(out)@ == old(out)@ + decimal(n as nat),
    decreases n,
{
    if n >= 10 {
        push_decimal(out, n / 10);
    }
    push_digit(out, n % 10);
    assert(final(out)@ =~= old(out)@ + decimal(n as nat));
}

/// Appends `n` in hexadecimal notation.
pub fn push_hex(out: &mut String, n: u32)
    ensures
        final(out)@ == old(out)@ + hex(n as nat),
    decreases n,
{
    if n >= 16 {
        push_hex(out, n / 16);
    }
    push_digit(out, n % 16);
    assert(final(out)@ =~= old(out)@ + hex(n as nat));
}

/// Appends the lowest `width` hexadecimal digits of `n`.
pub fn push_hex_fixed(out: &mut String, n: u32, width: u32)
    ensures
        final(out)@ == old(out)@ + hex_fixed(n as nat, width as nat),
    decreases width,
{
    if width > 0 {
        push_hex_fixed(out, n / 16, width - 1);
        push_digit(out, n % 16);
    }
    assert(final(out)@ =~= old(out)@ + hex_fixed(n as nat, width as nat));
}

/// Appends `true` or `false`.
pub fn push_truth(out: &mut String, b: bool)
    ensures
        final(out)@ == old(out)@ + truth(b),
{
    if b {
        out.append("true");
    } else {
        out.append("false");
    }
}

/// Appends each byte as two hexadecimal digits, the separator between them.
pub fn push_hex_list(out: &mut String, bytes: &[u8], separator: &str)
    ensures
        final(out)@ == old(out)@ + hex_list(bytes@, separator@),
{
    let ghost parts: Seq<Seq<char>> = bytes@.map_values(|b: u8| hex_fixed(b as nat, 2));
    let len: usize = bytes.len();
    let mut i: usize = 0;
    while i < len
        invariant
            len == bytes@.len(),
            i <= len,
            parts == bytes@.map_values(|b: u8| hex_fixed(b as nat, 2)),
            out@ == old(out)@ + joined(parts.take(i as int), separator@),
        decreases len - i,
    {
        if i > 0 {
            out.append(separator);
        }
        push_hex_fixed(out, bytes[i] as u32, 2);
        proof {
            let shorter = parts.take(i as int);
            let longer = parts.take(i + 1);
            assert(longer.drop_last() =~= shorter);
            assert(longer.last() == hex_fixed(bytes@[i as int] as nat, 2));
            assert(out@ =~= old(out)@ + joined(longer, separator@));
        }
        i += 1;
    }
    assert(parts.take(len as int) =~= parts);
}

/// Appends each byte as a decimal number, the separator between them.
pub fn push_decimal_list(out: &mut String, bytes: &[u8], separator: &str)
    ensures
        final(out)@ == old(out)@ + decimal_list(bytes@, separator@),
{
    let ghost parts: Seq<Seq<char>> = bytes@.map_values(|b: u8| decimal(b as nat));
    let len: usize = bytes.len();
    let mut i: usize = 0;
    while i < len
        invariant
            len == bytes@.len(),
            i <= len,
            parts == bytes@.map_values(|b: u8| decimal(b as nat)),
            out@ == old(out)@ + joined(parts.take(i as int), separator@),
        decreases len - i,
    {
        if i > 0 {
            out.append(separator);
        }
        push_decimal(out, bytes[i] as u32);
        proof {
            let shorter = parts.take(i as int);
            let longer = parts.take(i + 1);
            assert(longer.drop_last() =~= shorter);
            assert(longer.last() == decimal(bytes@[i as int] as nat));
            assert(out@ =~= old(out)@ + joined(longer, separator@));
        }
        i += 1;
    }
    assert(parts.take(len as int) =~= parts);
}

} // verus!
