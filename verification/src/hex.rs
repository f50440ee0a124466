//! Lowercase hexadecimal text for byte strings.

use vstd::prelude::*;

verus! {

/// `String::push` appends one character to the end of the string.
pub assume_specification[ String::push ](s: &mut String, ch: char)
    ensures
        final(s)@ == old(s)@.push(ch),
;

/// `String::push_str` appends the whole slice to the end of the string.
pub assume_specification[ String::push_str ](s: &mut String, other: &str)
    ensures
        final(s)@ == old(s)@ + other@,
;

/// The lowercase hexadecimal digit for a value below sixteen.
pub open spec fn hex_digit(n: int) -> char {
    if n == 0 {
        '0'
    } else if n == 1 {
        '1'
    } else if n == 2 {
        '2'
    } else if n == 3 {
        '3'
    } else if n == 4 {
        '4'
    } else if n == 5 {
        '5'
    } else if n == 6 {
        '6'
    } else if n == 7 {
        '7'
    } else if n == 8 {
        '8'
    } else if n == 9 {
        '9'
    } else if n == 10 {
        'a'
    } else if n == 11 {
        'b'
    } else if n == 12 {
        'c'
    } else if n == 13 {
        'd'
    } else if n == 14 {
        'e'
    } else {
        'f'
    }
}

/// Whether `c` is one of the sixteen lowercase hexadecimal digits.
pub open spec fn is_hex_digit(c: char) -> bool {
    exists|n: int| 0 <= n < 16 && c == #[trigger] hex_digit(n)
}

/// Two digits per byte, high nibble first.
pub open spec fn hex_encode(bytes: Seq<u8>) -> Seq<char> {
    Seq::new(
        2 * bytes.len(),
        |i: int|
            if i % 2 == 0 {
                hex_digit(bytes[i / 2] as int / 16)
            } else {
                hex_digit(bytes[i / 2] as int % 16)
            },
    )
}

/// The characters `0x`.
pub open spec fn hex_prefix() -> Seq<char> {
    seq!['0', 'x']
}

/// `0x` followed by the digits of `bytes`.
pub open spec fn hex_encode_prefixed(bytes: Seq<u8>) -> Seq<char> {
    hex_prefix() + hex_encode(bytes)
}

/// The digit for one nibble.
pub fn nibble_to_hex(n: u8) -> (c: char)
    requires
        n < 16,
    ensures
        c == hex_digit(n as int),
{
    match n {
        0 => '0',
        1 => '1',
        2 => '2',
        3 => '3',
        4 => '4',
        5 => '5',
        6 => '6',
        7 => '7',
        8 => '8',
        9 => '9',
        10 => 'a',
        11 => 'b',
        12 => 'c',
        13 => 'd',
        14 => 'e',
        _ => 'f',
    }
}

/// Appends the digits of `bytes` to `out`.
pub fn push_hex(out: &mut String, bytes: &[u8])
    ensures
        final(out)@ == old(out)@ + hex_encode(bytes@),
{
    let ghost before = out@;
    let n: usize = bytes.len();
    let mut i: usize = 0;
    while i < n
        invariant
            i <= n,
            n == bytes@.len(),
            out@ == before + hex_encode(bytes@.take(i as int)),
        decreases n - i,
    {
        let b: u8 = bytes[i];
        out.push(nibble_to_hex(b / 16));
        out.push(nibble_to_hex(b % 16));
        i = i + 1;
        assert(out@ =~= before + hex_encode(bytes@.take(i as int)));
    }
    assert(bytes@.take(n as int) =~= bytes@);
}

/// The digits of `u8_vector`, without a prefix.
pub fn byte_array_to_hex(u8_vector: &Vec<u8>) -> (text: String)
    ensures
        text@ == hex_encode(u8_vector@),
{
    let mut text = String::new();
    push_hex(&mut text, u8_vector.as_slice());
    text
}

/// Appends `0x` and the digits of `bytes` to `out`.
pub fn push_hex_prefixed(out: &mut String, bytes: &[u8])
    ensures
        final(out)@ == old(out)@ + hex_encode_prefixed(bytes@),
{
    out.push('0');
    out.push('x');
    push_hex(out, bytes);
    assert(out@ =~= old(out)@ + hex_encode_prefixed(bytes@));
}

/// The digits of `u8_vector` behind `0x`.
pub fn byte_array_to_hex_prefixed(u8_vector: &Vec<u8>) -> (text: String)
    ensures
        text@ == hex_encode_prefixed(u8_vector@),
{
    let mut text = String::new();
    push_hex_prefixed(&mut text, u8_vector.as_slice());
    assert(text@ =~= hex_encode_prefixed(u8_vector@));
    text
}

/// The text of a byte string is `0x` followed by two lowercase hexadecimal
/// digits for each byte.
pub proof fn law_hex_shape(bytes: Seq<u8>)
    ensures
        hex_encode_prefixed(bytes).len() == 2 + 2 * bytes.len(),
        hex_encode_prefixed(bytes)[0] == '0',
        hex_encode_prefixed(bytes)[1] == 'x',
        forall|i: int|
            2 <= i < 2 + 2 * bytes.len() ==> is_hex_digit(
                #[trigger] hex_encode_prefixed(bytes)[i],
            ),
{
    assert forall|i: int| 2 <= i < 2 + 2 * bytes.len() implies is_hex_digit(
        #[trigger] hex_encode_prefixed(bytes)[i],
    ) by {
        let j = i - 2;
        let b = bytes[j / 2] as int;
        assert(hex_encode_prefixed(bytes)[i] == hex_encode(bytes)[j]);
        if j % 2 == 0 {
            assert(0 <= b / 16 < 16);
            assert(hex_encode(bytes)[j] == hex_digit(b / 16));
        } else {
            assert(0 <= b % 16 < 16);
            assert(hex_encode(bytes)[j] == hex_digit(b % 16));
        }
    }
}

/// Different byte strings have different texts.
pub proof fn law_hex_injective(a: Seq<u8>, b: Seq<u8>)
    requires
        hex_encode(a) == hex_encode(b),
    ensures
        a == b,
{
    assert(a.len() == b.len()) by {
        assert(hex_encode(a).len() == 2 * a.len());
        assert(hex_encode(b).len() == 2 * b.len());
    }
    assert forall|k: int| 0 <= k < a.len() implies a[k] == b[k] by {
        let x = a[k] as int;
        let y = b[k] as int;
        assert(hex_encode(a)[2 * k] == hex_digit(x / 16));
        assert(hex_encode(b)[2 * k] == hex_digit(y / 16));
        assert(hex_encode(a)[2 * k + 1] == hex_digit(x % 16));
        assert(hex_encode(b)[2 * k + 1] == hex_digit(y % 16));
        lemma_hex_digit_injective(x / 16, y / 16);
        lemma_hex_digit_injective(x % 16, y % 16);
    }
    assert(a =~= b);
}

proof fn lemma_hex_digit_injective(m: int, n: int)
    requires
        0 <= m < 16,
        0 <= n < 16,
        hex_digit(m) == hex_digit(n),
    ensures
        m == n,
{
}

} // verus!
