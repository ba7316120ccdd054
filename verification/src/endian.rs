//! Little-endian byte strings as numbers, and the lane layout of a cycle
//! proof: every 64-bit lane takes eight bytes, least significant byte first.

use byteorder::{ByteOrder, LittleEndian, WriteBytesExt};
use vstd::prelude::*;

verus! {

/// 256 to the power `width`: the number of values that `width` bytes can hold.
pub open spec fn radix(width: nat) -> nat
    decreases width,
{
    if width == 0 {
        1
    } else {
        256 * radix((width - 1) as nat)
    }
}

/// The number that a byte string holds, least significant byte first.
pub open spec fn le_value(bytes: Seq<u8>) -> nat
    decreases bytes.len(),
{
    if bytes.len() == 0 {
        0
    } else {
        bytes[0] as nat + 256 * le_value(bytes.drop_first())
    }
}

/// The `width` low bytes of `value`, least significant byte first.
pub open spec fn le_bytes(value: nat, width: nat) -> Seq<u8>
    decreases width,
{
    if width == 0 {
        Seq::empty()
    } else {
        seq![(value % 256) as u8] + le_bytes(value / 256, (width - 1) as nat)
    }
}

/// The bytes of a row of 64-bit lanes: lane `i` fills bytes `8 * i` to
/// `8 * i + 7`.
pub open spec fn lanes_to_bytes(lanes: Seq<u64>) -> Seq<u8> {
    Seq::new(8 * lanes.len(), |k: int| le_bytes(lanes[k / 8] as nat, 8)[k % 8])
}

/// The 64-bit lanes that a byte string holds, eight bytes to a lane. Bytes
/// after the last full lane are left out.
pub open spec fn bytes_to_lanes(bytes: Seq<u8>) -> Seq<u64> {
    Seq::new(bytes.len() / 8, |i: int| le_value(bytes.subrange(8 * i, 8 * i + 8)) as u64)
}

pub proof fn lemma_radix_values()
    ensures
        radix(0) == 1,
        radix(1) == 0x100,
        radix(4) == 0x1_0000_0000,
        radix(8) == 0x1_0000_0000_0000_0000,
{
    reveal_with_fuel(radix, 9);
}

pub proof fn lemma_le_bytes_len(value: nat, width: nat)
    ensures
        le_bytes(value, width).len() == width,
    decreases width,
{
    if width > 0 {
        lemma_le_bytes_len(value / 256, (width - 1) as nat);
    }
}

/// A byte string of a given length holds a number below `radix` of that length.
pub proof fn lemma_le_value_bound(bytes: Seq<u8>)
    ensures
        le_value(bytes) < radix(bytes.len()),
    decreases bytes.len(),
{
    if bytes.len() > 0 {
        lemma_le_value_bound(bytes.drop_first());
    }
}

/// Encoding a number that fits and reading the bytes back gives the number.
pub proof fn lemma_value_round_trip(value: nat, width: nat)
    requires
        value < radix(width),
    ensures
        le_value(le_bytes(value, width)) == value,
    decreases width,
{
    if width > 0 {
        let rest = le_bytes(value / 256, (width - 1) as nat);
        lemma_value_round_trip(value / 256, (width - 1) as nat);
        assert(le_bytes(value, width).drop_first() =~= rest);
    }
}

/// Reading a byte string and encoding the number at the same length gives
/// the byte string.
pub proof fn lemma_bytes_round_trip(bytes: Seq<u8>)
    ensures
        le_bytes(le_value(bytes), bytes.len()) == bytes,
    decreases bytes.len(),
{
    if bytes.len() > 0 {
        let rest = bytes.drop_first();
        lemma_bytes_round_trip(rest);
        let value = le_value(bytes);
        assert(value % 256 == bytes[0] as nat);
        assert(value / 256 == le_value(rest));
        assert(le_bytes(value, bytes.len()) =~= bytes);
    } else {
        assert(le_bytes(le_value(bytes), bytes.len()) =~= bytes);
    }
}

/// Lanes written out as bytes and read back are the same lanes.
pub proof fn lemma_lanes_round_trip(lanes: Seq<u64>)
    ensures
        lanes_to_bytes(lanes).len() == 8 * lanes.len(),
        bytes_to_lanes(lanes_to_bytes(lanes)) == lanes,
{
    let bytes = lanes_to_bytes(lanes);
    let back = bytes_to_lanes(bytes);
    lemma_radix_values();
    assert forall|i: int| 0 <= i < lanes.len() implies back[i] == lanes[i] by {
        let lane = le_bytes(lanes[i] as nat, 8);
        lemma_le_bytes_len(lanes[i] as nat, 8);
        assert(bytes.subrange(8 * i, 8 * i + 8) =~= lane) by {
            assert forall|j: int| 0 <= j < 8 implies bytes[8 * i + j] == lane[j] by {
                assert((8 * i + j) / 8 == i && (8 * i + j) % 8 == j);
            }
        }
        lemma_value_round_trip(lanes[i] as nat, 8);
    }
    assert(back =~= lanes);
}

/// Bytes read as lanes and written out again are the same bytes, when the
/// bytes fill whole lanes.
pub proof fn lemma_lane_bytes_round_trip(bytes: Seq<u8>)
    requires
        bytes.len() % 8 == 0,
    ensures
        bytes_to_lanes(bytes).len() * 8 == bytes.len(),
        lanes_to_bytes(bytes_to_lanes(bytes)) == bytes,
{
    let lanes = bytes_to_lanes(bytes);
    let back = lanes_to_bytes(lanes);
    lemma_radix_values();
    assert forall|k: int| 0 <= k < bytes.len() implies back[k] == bytes[k] by {
        let i = k / 8;
        let chunk = bytes.subrange(8 * i, 8 * i + 8);
        lemma_le_value_bound(chunk);
        lemma_bytes_round_trip(chunk);
        assert(lanes[i] as nat == le_value(chunk));
        assert(chunk[k % 8] == bytes[k]);
    }
    assert(back =~= bytes);
}

/// `byteorder::LittleEndian::write_u64_into`: writes each lane of `src` into
/// its eight bytes of `dst`, least significant byte first. The outside
/// function panics unless `dst` has eight bytes for each lane.
#[verifier::external_body]
pub(crate) fn write_u64_into(src: &[u64], dst: &mut [u8])
    requires
        old(dst)@.len() == 8 * src@.len(),
    ensures
        final(dst)@ == lanes_to_bytes(src@),
{
    LittleEndian::write_u64_into(src, dst)
}

/// `byteorder::LittleEndian::read_u64_into`: reads each lane of `dst` from
/// its eight bytes of `src`, least significant byte first. The outside
/// function panics unless `src` has eight bytes for each lane.
#[verifier::external_body]
pub(crate) fn read_u64_into(src: &[u8], dst: &mut [u64])
    requires
        src@.len() == 8 * old(dst)@.len(),
    ensures
        final(dst)@ == bytes_to_lanes(src@),
{
    LittleEndian::read_u64_into(src, dst)
}

/// `byteorder::WriteBytesExt::write_u32` in `LittleEndian` order on a byte
/// vector: appends the four bytes of `n`, least significant byte first.
/// Writing to a vector does not fail.
#[verifier::external_body]
pub(crate) fn write_u32(buf: &mut Vec<u8>, n: u32)
    ensures
        final(buf)@ == old(buf)@ + le_bytes(n as nat, 4),
{
    let _ = buf.write_u32::<LittleEndian>(n);
}

} // verus!
