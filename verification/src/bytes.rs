//! Big-endian integers as bytes, most significant byte first.

use vstd::prelude::*;

verus! {

/// The number that `bytes` spell, most significant byte first.
pub open spec fn be_value(bytes: Seq<u8>) -> nat
    decreases bytes.len(),
{
    if bytes.len() == 0 {
        0
    } else {
        be_value(bytes.drop_last()) * 256 + bytes.last() as nat
    }
}

/// The low `width` bytes of `value`, most significant byte first.
pub open spec fn be_bytes(value: nat, width: nat) -> Seq<u8>
    decreases width,
{
    if width == 0 {
        Seq::empty()
    } else {
        be_bytes(value / 256, (width - 1) as nat).push((value % 256) as u8)
    }
}

/// The eight bytes of `value`, most significant byte first.
pub fn u64_to_be_bytes(value: u64) -> (bytes: [u8; 8])
    ensures
        bytes@ == be_bytes(value as nat, 8),
        be_value(bytes@) == value,
{
    let mut bytes: [u8; 8] = [0u8;8];
    let mut rest: u64 = value;
    let mut at: usize = 8;
    assert(be_bytes(rest as nat, 8) + bytes@.skip(8) =~= be_bytes(value as nat, 8));
    while at > 0
        invariant
            at <= 8,
            be_bytes(rest as nat, at as nat) + bytes@.skip(at as int) == be_bytes(value as nat, 8),
        decreases at,
    {
        let ghost earlier = bytes@;
        let ghost before = rest as nat;
        at = at - 1;
        bytes[at] = (rest % 256) as u8;
        rest = rest / 256;
        proof {
            lemma_be_bytes_len(rest as nat, at as nat);
            assert(be_bytes(rest as nat, at as nat) + bytes@.skip(at as int) =~= be_bytes(
                before,
                (at + 1) as nat,
            ) + earlier.skip(at + 1));
        }
    }
    proof {
        assert(bytes@.skip(0) =~= bytes@);
        assert(be_bytes(rest as nat, 0) + bytes@.skip(0) =~= bytes@);
        lemma_u64_fits(value);
    }
    bytes
}

/// The number that eight bytes spell, most significant byte first.
pub fn u64_from_be_bytes(bytes: &[u8; 8]) -> (value: u64)
    ensures
        value == be_value(bytes@),
{
    let mut value: u64 = 0;
    let mut at: usize = 0;
    let ghost mut bound: nat = 1;
    while at < 8
        invariant
            at <= 8,
            value == be_value(bytes@.take(at as int)),
            value < bound,
            bound == pow256(at as nat),
        decreases 8 - at,
    {
        proof {
            assert(bytes@.take(at + 1).drop_last() =~= bytes@.take(at as int));
            lemma_pow256_values();
            bound = bound * 256;
        }
        value = value * 256 + bytes[at] as u64;
        at = at + 1;
    }
    assert(bytes@.take(8) =~= bytes@);
    value
}

spec fn pow256(width: nat) -> nat
    decreases width,
{
    if width == 0 {
        1
    } else {
        256 * pow256((width - 1) as nat)
    }
}

proof fn lemma_pow256_values()
    ensures
        pow256(0) == 1,
        pow256(1) == 0x100,
        pow256(2) == 0x1_0000,
        pow256(3) == 0x100_0000,
        pow256(4) == 0x1_0000_0000,
        pow256(5) == 0x100_0000_0000,
        pow256(6) == 0x1_0000_0000_0000,
        pow256(7) == 0x100_0000_0000_0000,
        pow256(8) == 0x1_0000_0000_0000_0000,
{
    reveal_with_fuel(pow256, 9);
}

/// `be_bytes` yields exactly `width` bytes.
pub proof fn lemma_be_bytes_len(value: nat, width: nat)
    ensures
        be_bytes(value, width).len() == width,
    decreases width,
{
    if width > 0 {
        lemma_be_bytes_len(value / 256, (width - 1) as nat);
    }
}

proof fn lemma_be_value_of_be_bytes(value: nat, width: nat)
    requires
        value < pow256(width),
    ensures
        be_value(be_bytes(value, width)) == value,
    decreases width,
{
    if width > 0 {
        lemma_be_value_of_be_bytes(value / 256, (width - 1) as nat);
        let bytes = be_bytes(value, width);
        assert(bytes.drop_last() =~= be_bytes(value / 256, (width - 1) as nat));
    }
}

proof fn lemma_u64_fits(value: u64)
    ensures
        be_value(be_bytes(value as nat, 8)) == value,
{
    lemma_pow256_values();
    lemma_be_value_of_be_bytes(value as nat, 8);
}

/// Law: eight bytes spell one number and no other eight bytes spell it, so
/// writing a number and reading it back gives the number.
pub proof fn law_be_round_trip(value: u64, bytes: Seq<u8>)
    requires
        bytes.len() == 8,
    ensures
        be_value(be_bytes(value as nat, 8)) == value,
        be_value(bytes) == value <==> bytes == be_bytes(value as nat, 8),
{
    lemma_u64_fits(value);
    lemma_be_bytes_of_be_value(bytes);
}

proof fn lemma_be_bytes_of_be_value(bytes: Seq<u8>)
    ensures
        be_bytes(be_value(bytes), bytes.len()) == bytes,
    decreases bytes.len(),
{
    if bytes.len() > 0 {
        lemma_be_bytes_of_be_value(bytes.drop_last());
        assert(bytes.drop_last().push(bytes.last()) =~= bytes);
    }
}

/// Law: the first of eight bytes is the most significant: each byte counts 256
/// times as much as the next.
pub proof fn law_most_significant_byte_first(bytes: Seq<u8>)
    requires
        bytes.len() == 8,
    ensures
        be_value(bytes) == bytes[0] * 0x100_0000_0000_0000 + bytes[1] * 0x1_0000_0000_0000
            + bytes[2] * 0x100_0000_0000 + bytes[3] * 0x1_0000_0000 + bytes[4] * 0x100_0000
            + bytes[5] * 0x1_0000 + bytes[6] * 0x100 + bytes[7],
        be_bytes(be_value(bytes), 8) == bytes,
{
    lemma_be_bytes_of_be_value(bytes);
    let b7 = bytes.drop_last();
    let b6 = b7.drop_last();
    let b5 = b6.drop_last();
    let b4 = b5.drop_last();
    let b3 = b4.drop_last();
    let b2 = b3.drop_last();
    let b1 = b2.drop_last();
    assert(be_value(b1.drop_last()) == 0);
    assert(be_value(b1) == bytes[0]);
    assert(be_value(b2) == bytes[0] * 0x100 + bytes[1]);
    assert(be_value(b3) == be_value(b2) * 0x100 + bytes[2]);
    assert(be_value(b4) == be_value(b3) * 0x100 + bytes[3]);
    assert(be_value(b5) == be_value(b4) * 0x100 + bytes[4]);
    assert(be_value(b6) == be_value(b5) * 0x100 + bytes[5]);
    assert(be_value(b7) == be_value(b6) * 0x100 + bytes[6]);
}

} // verus!
