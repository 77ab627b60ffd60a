//! Numbers written out as text, for the messages that errors carry.

use vstd::prelude::*;

verus! {

/// The sixteen digits, in the order of their values.
pub open spec fn digits() -> Seq<char> {
    "0123456789ABCDEF"@
}

/// `n` written in base ten, without leading zeros.
pub open spec fn decimal(n: nat) -> Seq<char>
    decreases n,
{
    if n < 10 {
        seq![digits()[n as int]]
    } else {
        decimal(n / 10) + seq![digits()[(n % 10) as int]]
    }
}

/// `n` written in base sixteen with upper-case letters, padded with zeros to
/// `width` digits; higher digits of `n` are left out.
pub open spec fn hex(n: nat, width: nat) -> Seq<char>
    decreases width,
{
    if width == 0 {
        Seq::empty()
    } else {
        hex(n / 16, (width - 1) as nat) + seq![digits()[(n % 16) as int]]
    }
}

/// Appends the digit that stands for `d`.
fn push_digit(text: &mut String, d: u8)
    requires
        d < 16,
    ensures
        final(text)@ == old(text)@ + seq![digits()[d as int]],
{
    proof {
        reveal_strlit("0123456789ABCDEF");
    }
    let at: usize = d as usize;
    let digit = "0123456789ABCDEF".substring_char(at, at + 1);
    text.append(digit);
    assert(digit@ =~= seq![digits()[d as int]]);
}

/// Appends `n` in base ten.
pub fn push_decimal(text: &mut String, n: usize)
    ensures
        final(text)@ == old(text)@ + decimal(n as nat),
    decreases n,
{
    if n >= 10 {
        push_decimal(text, n / 10);
    }
    push_digit(text, (n % 10) as u8);
    assert(final(text)@ =~= old(text)@ + decimal(n as nat));
}

/// Appends the two hexadecimal digits of a byte.
pub fn push_hex_byte(text: &mut String, byte: u8)
    ensures
        final(text)@ == old(text)@ + hex(byte as nat, 2),
{
    push_digit(text, byte / 16);
    push_digit(text, byte % 16);
    assert(hex(byte as nat, 2) =~= seq![
        digits()[(byte / 16) as int],
        digits()[(byte % 16) as int],
    ]) by {
        reveal_with_fuel(hex, 3);
    }
    assert(final(text)@ =~= old(text)@ + hex(byte as nat, 2));
}

/// Appends the four hexadecimal digits of a 16-bit word.
pub fn push_hex_word(text: &mut String, word: u16)
    ensures
        final(text)@ == old(text)@ + hex(word as nat, 4),
{
    push_hex_byte(text, (word / 256) as u8);
    push_hex_byte(text, (word % 256) as u8);
    assert(hex(word as nat, 4) =~= hex((word / 256) as nat, 2) + hex((word % 256) as nat, 2))
        by {
        reveal_with_fuel(hex, 5);
    }
    assert(final(text)@ =~= old(text)@ + hex(word as nat, 4));
}

} // verus!
