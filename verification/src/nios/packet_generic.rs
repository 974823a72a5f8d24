//! The part of a command frame that all classes share, and the little-endian
//! fields that the classes lay out behind it.

use vstd::prelude::*;
use vstd::arithmetic::div_mod::lemma_div_denominator;
use crate::nios::constants::{
    NIOS_PKT_FLAG_SUCCESS, NIOS_PKT_FLAG_WRITE, NIOS_PKT_IDX_FLAGS, NIOS_PKT_IDX_MAGIC,
    NIOS_PKT_IDX_TARGET_ID,
};

verus! {

/// 256 to the power `n`.
pub open spec fn pow256(n: nat) -> nat
    decreases n,
{
    if n == 0 {
        1
    } else {
        256 * pow256((n - 1) as nat)
    }
}

/// The `width` low-order bytes of `value`, least significant first.
pub open spec fn le_bytes(value: nat, width: nat) -> Seq<u8>
    decreases width,
{
    if width == 0 {
        Seq::empty()
    } else {
        seq![(value % 256) as u8] + le_bytes(value / 256, (width - 1) as nat)
    }
}

/// The number that `bytes` spell, least significant byte first.
pub open spec fn le_value(bytes: Seq<u8>) -> nat
    decreases bytes.len(),
{
    if bytes.len() == 0 {
        0
    } else {
        bytes[0] as nat + 256 * le_value(bytes.drop_first())
    }
}

/// `frame` with the bytes from index `at` on replaced by `part`.
pub open spec fn splice(frame: Seq<u8>, at: int, part: Seq<u8>) -> Seq<u8>
    recommends
        0 <= at,
        at + part.len() <= frame.len(),
{
    frame.subrange(0, at) + part + frame.subrange(at + part.len(), frame.len() as int)
}

/// The first 16 bytes of `bytes`, padded with zeros where `bytes` is shorter.
pub open spec fn fit16(bytes: Seq<u8>) -> Seq<u8> {
    Seq::new(
        16,
        |i: int|
            if i < bytes.len() {
                bytes[i]
            } else {
                0u8
            },
    )
}

/// Sixteen zero bytes.
pub open spec fn zero_frame() -> Seq<u8> {
    Seq::new(16, |i: int| 0u8)
}

pub proof fn lemma_pow256_small(n: nat)
    requires
        n <= 8,
    ensures
        0 < pow256(n) <= 0x1_0000_0000_0000_0000,
        n <= 7 ==> pow256(n) <= 0x100_0000_0000_0000,
        pow256(0) == 1,
        pow256(1) == 0x100,
        pow256(2) == 0x1_0000,
        pow256(4) == 0x1_0000_0000,
        pow256(8) == 0x1_0000_0000_0000_0000,
{
    reveal_with_fuel(pow256, 10);
}

pub proof fn lemma_le_bytes_len(value: nat, width: nat)
    ensures
        le_bytes(value, width).len() == width,
    decreases width,
{
    if width > 0 {
        lemma_le_bytes_len(value / 256, (width - 1) as nat);
    }
}

/// Byte `j` of the encoding is digit `j` of `value` in base 256.
pub proof fn lemma_le_bytes_index(value: nat, width: nat, j: nat)
    requires
        j < width,
    ensures
        le_bytes(value, width).len() == width,
        le_bytes(value, width)[j as int] as nat == (value / pow256(j)) % 256,
    decreases width,
{
    lemma_le_bytes_len(value, width);
    lemma_le_bytes_len(value / 256, (width - 1) as nat);
    if j == 0 {
        assert(pow256(0) == 1);
    } else {
        lemma_le_bytes_index(value / 256, (width - 1) as nat, (j - 1) as nat);
        assert(pow256((j - 1) as nat) > 0) by {
            lemma_pow256_positive((j - 1) as nat);
        }
        lemma_div_denominator(value as int, 256, pow256((j - 1) as nat) as int);
        assert(pow256(j) == 256 * pow256((j - 1) as nat));
        assert(le_bytes(value, width)[j as int] == le_bytes(value / 256, (width - 1) as nat)[j
            - 1]);
    }
}

pub proof fn lemma_pow256_positive(n: nat)
    ensures
        pow256(n) > 0,
    decreases n,
{
    if n > 0 {
        lemma_pow256_positive((n - 1) as nat);
    }
}

/// A number read back from bytes is below 256 to the number of bytes.
pub proof fn lemma_le_value_bound(bytes: Seq<u8>)
    ensures
        le_value(bytes) < pow256(bytes.len()),
    decreases bytes.len(),
{
    if bytes.len() > 0 {
        lemma_le_value_bound(bytes.drop_first());
    }
}

/// Decoding inverts encoding for every value that fits in `width` bytes.
pub proof fn lemma_le_round_trip(value: nat, width: nat)
    requires
        value < pow256(width),
    ensures
        le_bytes(value, width).len() == width,
        le_value(le_bytes(value, width)) == value,
    decreases width,
{
    lemma_le_bytes_len(value, width);
    if width > 0 {
        let rest = le_bytes(value / 256, (width - 1) as nat);
        lemma_le_round_trip(value / 256, (width - 1) as nat);
        assert(le_bytes(value, width).drop_first() =~= rest);
    }
}

/// Writes the `width` low-order bytes of `value` into `buf` from `offset`
/// on, least significant first.
pub(crate) fn store_le(buf: &mut [u8; 16], offset: usize, width: usize, value: u64)
    requires
        offset + width <= 16,
    ensures
        final(buf)@ == splice(old(buf)@, offset as int, le_bytes(value as nat, width as nat)),
{
    let ghost before = buf@;
    let ghost image = le_bytes(value as nat, width as nat);
    let mut rest: u64 = value;
    let mut i: usize = 0;
    proof {
        lemma_le_bytes_len(value as nat, width as nat);
        assert(pow256(0) == 1);
    }
    while i < width
        invariant
            i <= width,
            offset + width <= 16,
            before.len() == 16,
            image == le_bytes(value as nat, width as nat),
            image.len() == width,
            rest as nat == value as nat / pow256(i as nat),
            forall|k: int|
                0 <= k < 16 ==> buf@[k] == if offset <= k < offset + i {
                    image[k - offset]
                } else {
                    before[k]
                },
        decreases width - i,
    {
        proof {
            lemma_le_bytes_index(value as nat, width as nat, i as nat);
            lemma_pow256_positive(i as nat);
            lemma_div_denominator(value as int, pow256(i as nat) as int, 256);
            assert(pow256((i + 1) as nat) == 256 * pow256(i as nat));
        }
        buf[offset + i] = (rest % 256) as u8;
        rest = rest / 256;
        i += 1;
    }
    assert(buf@ =~= splice(before, offset as int, image));
}

/// Reads `width` bytes of `buf` from `offset` on as one number, least
/// significant byte first.
pub(crate) fn load_le(buf: &[u8; 16], offset: usize, width: usize) -> (value: u64)
    requires
        offset + width <= 16,
        width <= 8,
    ensures
        value as nat == le_value(buf@.subrange(offset as int, offset + width)),
        (value as nat) < pow256(width as nat),
{
    let mut acc: u64 = 0;
    let mut i: usize = width;
    while i > 0
        invariant
            i <= width,
            width <= 8,
            offset + width <= 16,
            acc as nat == le_value(buf@.subrange(offset + i, offset + width)),
        decreases i,
    {
        i -= 1;
        proof {
            let tail = buf@.subrange(offset + i + 1, offset + width);
            let whole = buf@.subrange(offset + i, offset + width);
            assert(whole.drop_first() =~= tail);
            lemma_le_value_bound(tail);
            lemma_pow256_small((width - i - 1) as nat);
        }
        acc = acc * 256 + buf[offset + i] as u64;
    }
    proof {
        lemma_le_value_bound(buf@.subrange(offset as int, offset + width));
    }
    acc
}

/// Copies the bytes of `v` into a frame, cut or zero-padded to 16 bytes.
pub(crate) fn frame_from_vec(v: &Vec<u8>) -> (buf: [u8; 16])
    ensures
        buf@ == fit16(v@),
{
    let mut buf: [u8; 16] = [0u8; 16];
    let mut i: usize = 0;
    while i < 16 && i < v.len()
        invariant
            i <= 16,
            i <= v.len(),
            forall|k: int|
                0 <= k < 16 ==> buf@[k] == if k < i {
                    v@[k]
                } else {
                    0u8
                },
        decreases 16 - i,
    {
        buf[i] = v[i];
        i += 1;
    }
    assert(buf@ =~= fit16(v@));
    buf
}

/// The 16 bytes of a frame as a vector.
pub(crate) fn frame_to_vec(buf: &[u8; 16]) -> (v: Vec<u8>)
    ensures
        v@ == buf@,
        v.len() == 16,
{
    let mut v: Vec<u8> = Vec::new();
    let mut i: usize = 0;
    while i < 16
        invariant
            i <= 16,
            v@ == buf@.subrange(0, i as int),
        decreases 16 - i,
    {
        v.push(buf[i]);
        i += 1;
        assert(v@ =~= buf@.subrange(0, i as int));
    }
    assert(v@ =~= buf@);
    v
}

/// A command frame seen without regard to its class: magic, target id and
/// flags, which sit at the same offsets in every class.
pub struct NiosPacket {
    buf: [u8; 16],
}

impl View for NiosPacket {
    type V = Seq<u8>;

    /// The 16 bytes of the frame.
    closed spec fn view(&self) -> Seq<u8> {
        self.buf@
    }
}

impl NiosPacket {
    /// Whether the success bit is set in a flags byte.
    pub open spec fn flags_success(flags: u8) -> bool {
        flags & NIOS_PKT_FLAG_SUCCESS != 0
    }

    /// Whether the write bit is set in a flags byte.
    pub open spec fn flags_write(flags: u8) -> bool {
        flags & NIOS_PKT_FLAG_WRITE != 0
    }

    /// Every frame has 16 bytes.
    pub proof fn lemma_len(&self)
        ensures
            self@.len() == 16,
    {
    }

    /// Takes over a 16-byte frame.
    pub fn from_vec(v: Vec<u8>) -> (pkt: Self)
        requires
            v.len() == 16,
        ensures
            pkt@ == v@,
    {
        let pkt = NiosPacket { buf: frame_from_vec(&v) };
        assert(pkt@ =~= v@);
        pkt
    }

    /// A frame of sixteen zero bytes.
    pub fn new() -> (pkt: Self)
        ensures
            pkt@ == zero_frame(),
    {
        let pkt = NiosPacket { buf: [0u8; 16] };
        assert(pkt@ =~= zero_frame());
        pkt
    }

    /// Sets magic, target id and flags; the other bytes stay.
    pub fn set(&mut self, magic: u8, target_id: u8, flags: u8)
        ensures
            final(self)@ == old(self)@.update(0, magic).update(1, target_id).update(2, flags),
    {
        self.set_magic(magic);
        self.set_target_id(target_id);
        self.set_flags(flags);
    }

    /// The 16 bytes of the frame.
    pub fn into_vec(self) -> (v: Vec<u8>)
        ensures
            v@ == self@,
            v.len() == 16,
    {
        frame_to_vec(&self.buf)
    }

    /// Makes a frame of the bytes of `v`: its first 16 bytes, padded with
    /// zeros where `v` is shorter.
    pub fn reuse(v: Vec<u8>) -> (pkt: Self)
        ensures
            pkt@ == fit16(v@),
            v.len() == 16 ==> pkt@ == v@,
    {
        let pkt = NiosPacket { buf: frame_from_vec(&v) };
        assert(v.len() == 16 ==> pkt@ =~= v@);
        pkt
    }

    /// Whether the device reports success. Meaningful in responses only.
    pub fn success(&self) -> (r: bool)
        ensures
            r == Self::flags_success(self@[2]),
    {
        (self.buf[NIOS_PKT_IDX_FLAGS] & NIOS_PKT_FLAG_SUCCESS) != 0
    }

    pub fn magic(&self) -> (r: u8)
        ensures
            r == self@[0],
    {
        self.buf[NIOS_PKT_IDX_MAGIC]
    }

    pub fn target_id(&self) -> (r: u8)
        ensures
            r == self@[1],
    {
        self.buf[NIOS_PKT_IDX_TARGET_ID]
    }

    pub fn flags(&self) -> (r: u8)
        ensures
            r == self@[2],
    {
        self.buf[NIOS_PKT_IDX_FLAGS]
    }

    /// Whether the frame asks for a write rather than a read.
    pub fn is_write(&self) -> (r: bool)
        ensures
            r == Self::flags_write(self@[2]),
    {
        (self.buf[NIOS_PKT_IDX_FLAGS] & NIOS_PKT_FLAG_WRITE) != 0
    }

    pub fn set_magic(&mut self, magic: u8) -> (ret: &mut Self)
        ensures
            ret@ == old(self)@.update(0, magic),
            *final(self) == *final(ret),
    {
        self.buf[NIOS_PKT_IDX_MAGIC] = magic;
        self
    }

    pub fn set_target_id(&mut self, target_id: u8) -> (ret: &mut Self)
        ensures
            ret@ == old(self)@.update(1, target_id),
            *final(self) == *final(ret),
    {
        self.buf[NIOS_PKT_IDX_TARGET_ID] = target_id;
        self
    }

    /// Raises the bits of `flag` in the flags byte.
    pub fn set_flag(&mut self, flag: u8) -> (ret: &mut Self)
        ensures
            ret@ == old(self)@.update(2, old(self)@[2] | flag),
            *final(self) == *final(ret),
    {
        let flags = self.buf[NIOS_PKT_IDX_FLAGS];
        self.set_flags(flags | flag)
    }

    pub fn set_flags(&mut self, flags: u8) -> (ret: &mut Self)
        ensures
            ret@ == old(self)@.update(2, flags),
            *final(self) == *final(ret),
    {
        self.buf[NIOS_PKT_IDX_FLAGS] = flags;
        self
    }
}

} // verus!
