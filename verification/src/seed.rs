//! Which seeds are secret keys of the curve.

use vstd::prelude::*;

verus! {

/// The number that `bytes` writes in base 256, most significant byte first.
pub open spec fn be_value(bytes: Seq<u8>) -> nat
    decreases bytes.len(),
{
    if bytes.len() == 0 {
        0
    } else {
        be_value(bytes.drop_last()) * 256 + bytes.last() as nat
    }
}

/// The order of the secp256k1 group.
pub open spec fn curve_order() -> nat {
    0xFFFFFFFF_FFFFFFFF_FFFFFFFF_FFFFFFFE_BAAEDCE6_AF48A03B_BFD25E8C_D0364141nat
}

/// A seed is a secret key when it has thirty-two bytes and its number is
/// neither zero nor at or above the group order.
pub open spec fn seed_valid(bytes: Seq<u8>) -> bool {
    bytes.len() == 32 && 0 < be_value(bytes) < curve_order()
}

/// The group order, most significant byte first.
pub open spec fn curve_order_bytes() -> Seq<u8> {
    seq![
        0xffu8, 0xff, 0xff, 0xff, 0xff, 0xff, 0xff, 0xff,
        0xff, 0xff, 0xff, 0xff, 0xff, 0xff, 0xff, 0xfe,
        0xba, 0xae, 0xdc, 0xe6, 0xaf, 0x48, 0xa0, 0x3b,
        0xbf, 0xd2, 0x5e, 0x8c, 0xd0, 0x36, 0x41, 0x41,
    ]
}

/// One more byte at the end multiplies the number by 256 and adds the byte.
pub proof fn lemma_be_value_take(bytes: Seq<u8>, i: int)
    requires
        0 <= i < bytes.len(),
    ensures
        be_value(bytes.take(i + 1)) == be_value(bytes.take(i)) * 256 + bytes[i] as nat,
{
    assert(bytes.take(i + 1).drop_last() =~= bytes.take(i));
}

/// The bytes of the group order write the group order.
pub proof fn lemma_curve_order_bytes()
    ensures
        curve_order_bytes().len() == 32,
        be_value(curve_order_bytes()) == curve_order(),
{
    reveal_with_fuel(be_value, 33);
}

/// Whether `bytes` is a secret key of the curve.
pub fn seed_is_valid(bytes: &[u8]) -> (valid: bool)
    ensures
        valid == seed_valid(bytes@),
{
    if bytes.len() != 32 {
        return false;
    }
    let order: [u8; 32] = [
        0xff, 0xff, 0xff, 0xff, 0xff, 0xff, 0xff, 0xff,
        0xff, 0xff, 0xff, 0xff, 0xff, 0xff, 0xff, 0xfe,
        0xba, 0xae, 0xdc, 0xe6, 0xaf, 0x48, 0xa0, 0x3b,
        0xbf, 0xd2, 0x5e, 0x8c, 0xd0, 0x36, 0x41, 0x41,
    ];
    proof {
        lemma_curve_order_bytes();
        assert(order@ =~= curve_order_bytes());
    }
    let mut nonzero = false;
    let mut below = false;
    let mut above = false;
    let mut i: usize = 0;
    while i < 32
        invariant
            i <= 32,
            bytes@.len() == 32,
            order@ == curve_order_bytes(),
            nonzero == (be_value(bytes@.take(i as int)) > 0),
            below == (be_value(bytes@.take(i as int)) < be_value(order@.take(i as int))),
            above == (be_value(bytes@.take(i as int)) > be_value(order@.take(i as int))),
        decreases 32 - i,
    {
        proof {
            lemma_be_value_take(bytes@, i as int);
            lemma_be_value_take(order@, i as int);
        }
        let b: u8 = bytes[i];
        let o: u8 = order[i];
        if b != 0 {
            nonzero = true;
        }
        if !below && !above {
            if b < o {
                below = true;
            } else if b > o {
                above = true;
            }
        }
        i = i + 1;
    }
    proof {
        assert(bytes@.take(32) =~= bytes@);
        assert(order@.take(32) =~= order@);
    }
    nonzero && below
}

} // verus!
