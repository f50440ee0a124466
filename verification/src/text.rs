//! Numbers and byte lists as text.

use vstd::prelude::*;
use crate::hex::hex_digit;
use crate::hex::nibble_to_hex;

verus! {

/// The decimal digits of `n`, without leading zeros. The ten decimal digits
/// are the first ten hexadecimal ones.
pub open spec fn decimal(n: nat) -> Seq<char>
    decreases n,
{
    if n < 10 {
        seq![hex_digit(n as int)]
    } else {
        decimal(n / 10).push(hex_digit((n % 10) as int))
    }
}

/// The decimal forms of `bytes`, each after the first behind `, `.
pub open spec fn byte_items(bytes: Seq<u8>) -> Seq<char>
    decreases bytes.len(),
{
    if bytes.len() == 0 {
        Seq::empty()
    } else if bytes.len() == 1 {
        decimal(bytes[0] as nat)
    } else {
        byte_items(bytes.drop_last()) + seq![',', ' '] + decimal(bytes.last() as nat)
    }
}

/// A byte list as the standard debug form of a vector writes it: `[1, 2, 3]`.
pub open spec fn byte_list(bytes: Seq<u8>) -> Seq<char> {
    seq!['['] + byte_items(bytes) + seq![']']
}

/// Appends the decimal digits of `n` to `out`.
pub fn push_decimal(out: &mut String, n: u64)
    ensures
        final(out)@ == old(out)@ + decimal(n as nat),
    decreases n,
{
    if n >= 10 {
        push_decimal(out, n / 10);
    }
    out.push(nibble_to_hex((n % 10) as u8));
    assert(out@ =~= old(out)@ + decimal(n as nat));
}

/// Appends `bytes` to `out` as a bracketed list of decimal numbers.
pub fn push_byte_list(out: &mut String, bytes: &[u8])
    ensures
        final(out)@ == old(out)@ + byte_list(bytes@),
{
    let ghost before = out@;
    out.push('[');
    let n: usize = bytes.len();
    let mut i: usize = 0;
    while i < n
        invariant
            i <= n,
            n == bytes@.len(),
            out@ == before + seq!['['] + byte_items(bytes@.take(i as int)),
        decreases n - i,
    {
        if i > 0 {
            out.push(',');
            out.push(' ');
        }
        push_decimal(out, bytes[i] as u64);
        proof {
            let longer = bytes@.take(i + 1);
            assert(longer.drop_last() =~= bytes@.take(i as int));
            assert(longer.last() == bytes@[i as int]);
            assert(out@ =~= before + seq!['['] + byte_items(longer));
        }
        i = i + 1;
    }
    out.push(']');
    proof {
        assert(bytes@.take(n as int) =~= bytes@);
        assert(out@ =~= before + byte_list(bytes@));
    }
}

/// The decimal digits of `n`.
pub fn decimal_string(n: u64) -> (text: String)
    ensures
        text@ == decimal(n as nat),
{
    let mut text = String::new();
    push_decimal(&mut text, n);
    assert(text@ =~= decimal(n as nat));
    text
}

} // verus!
