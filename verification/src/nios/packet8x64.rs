//! Frames with 8-bit addresses and 64-bit data.
//!
//! | Byte offset | Description                         |
//! |-------------|-------------------------------------|
//! | 0           | Magic value                         |
//! | 1           | Target id                           |
//! | 2           | Flags                               |
//! | 3           | Reserved, 0                         |
//! | 4           | 8-bit address, little-endian        |
//! | 12:5        | 64-bit data, little-endian          |
//! | 15:13       | Reserved, 0                         |
//!
//! The target id names the peripheral, device or block to access. In the
//! flags byte, bit 0 tells a write (1) from a read (0); bit 1 is the status
//! of a response (1 for success) and is ignored in a request.
//!
//! The response repeats the request with the status bit set or clear; to a
//! read that succeeded it carries the data that was read.

use vstd::prelude::*;
use crate::board::bladerf1::BladeRfError;
use crate::nios::TransportError;
use crate::nios::constants::{
    NIOS_PKT_8X64_MAGIC, NIOS_PKT_FLAG_SUCCESS, NIOS_PKT_FLAG_WRITE, NIOS_PKT_IDX_ADDR,
    NIOS_PKT_IDX_FLAGS, NIOS_PKT_IDX_MAGIC, NIOS_PKT_IDX_TARGET_ID,
};
use crate::nios::packet_generic::{
    fit16, frame_from_vec, frame_to_vec, le_bytes, le_value, lemma_le_bytes_len,
    lemma_le_round_trip, lemma_pow256_small, load_le, splice, store_le, zero_frame, NiosPacket,
};

verus! {

/// A command frame with an 8-bit address and a 64-bit data word.
pub struct NiosPacket8x64 {
    buf: [u8; 16],
}

impl View for NiosPacket8x64 {
    type V = Seq<u8>;

    /// The 16 bytes of the frame.
    closed spec fn view(&self) -> Seq<u8> {
        self.buf@
    }
}

impl NiosPacket8x64 {
    /// `bytes` with magic, target id, flags, address and data of this class
    /// written over it; the reserved bytes stay.
    pub open spec fn with_fields(
        bytes: Seq<u8>,
        target_id: u8,
        flags: u8,
        addr: u8,
        data: u64,
    ) -> Seq<u8> {
        splice(
            splice(
                bytes.update(0, NIOS_PKT_8X64_MAGIC).update(1, target_id).update(2, flags),
                4,
                le_bytes(addr as nat, 1),
            ),
            5,
            le_bytes(data as nat, 8),
        )
    }

    /// The frame that carries the given fields and zeros elsewhere.
    pub open spec fn frame(target_id: u8, flags: u8, addr: u8, data: u64) -> Seq<u8> {
        Self::with_fields(zero_frame(), target_id, flags, addr, data)
    }

    /// Whether `bytes` is a frame of this class: 16 bytes, led by its magic.
    pub open spec fn is_frame(bytes: Seq<u8>) -> bool {
        bytes.len() == 16 && bytes[0] == NIOS_PKT_8X64_MAGIC
    }

    /// The address field of a frame.
    pub open spec fn addr_of(bytes: Seq<u8>) -> nat {
        le_value(bytes.subrange(4, 5))
    }

    /// The data field of a frame.
    pub open spec fn data_of(bytes: Seq<u8>) -> nat {
        le_value(bytes.subrange(5, 13))
    }

    /// Every frame has 16 bytes.
    pub proof fn lemma_len(&self)
        ensures
            self@.len() == 16,
    {
    }

    /// A frame built from fields is a frame of this class, holds zeros in
    /// all reserved bytes, and parses back to exactly those fields.
    pub proof fn lemma_round_trip(target_id: u8, flags: u8, addr: u8, data: u64)
        ensures
            Self::is_frame(Self::frame(target_id, flags, addr, data)),
            Self::frame(target_id, flags, addr, data)[1] == target_id,
            Self::frame(target_id, flags, addr, data)[2] == flags,
            Self::frame(target_id, flags, addr, data)[3] == 0,
            Self::addr_of(Self::frame(target_id, flags, addr, data)) == addr,
            Self::data_of(Self::frame(target_id, flags, addr, data)) == data,
            forall|k: int|
                13 <= k < 16 ==> Self::frame(target_id, flags, addr, data)[k] == 0,
    {
        let f = Self::frame(target_id, flags, addr, data);
        lemma_pow256_small(1);
        lemma_pow256_small(8);
        lemma_le_round_trip(addr as nat, 1);
        lemma_le_round_trip(data as nat, 8);
        assert(f.subrange(4, 5) =~= le_bytes(addr as nat, 1));
        assert(f.subrange(5, 13) =~= le_bytes(data as nat, 8));
    }

    /// Writing the fields of a frame over any 16 bytes changes nothing but
    /// those fields: what is read back is what was written.
    pub proof fn lemma_fields_read_back(
        bytes: Seq<u8>,
        target_id: u8,
        flags: u8,
        addr: u8,
        data: u64,
    )
        requires
            bytes.len() == 16,
        ensures
            Self::is_frame(Self::with_fields(bytes, target_id, flags, addr, data)),
            Self::with_fields(bytes, target_id, flags, addr, data)[1] == target_id,
            Self::with_fields(bytes, target_id, flags, addr, data)[2] == flags,
            Self::with_fields(bytes, target_id, flags, addr, data)[3] == bytes[3],
            Self::addr_of(Self::with_fields(bytes, target_id, flags, addr, data)) == addr,
            Self::data_of(Self::with_fields(bytes, target_id, flags, addr, data)) == data,
            forall|k: int|
                13 <= k < 16 ==> Self::with_fields(bytes, target_id, flags, addr, data)[k]
                    == bytes[k],
    {
        let f = Self::with_fields(bytes, target_id, flags, addr, data);
        lemma_pow256_small(1);
        lemma_pow256_small(8);
        lemma_le_round_trip(addr as nat, 1);
        lemma_le_round_trip(data as nat, 8);
        assert(f.subrange(4, 5) =~= le_bytes(addr as nat, 1));
        assert(f.subrange(5, 13) =~= le_bytes(data as nat, 8));
    }

    /// Takes over a 16-byte frame as it is, whatever its magic.
    pub fn from_vec(v: Vec<u8>) -> (pkt: Self)
        requires
            v.len() == 16,
        ensures
            pkt@ == v@,
    {
        let pkt = NiosPacket8x64 { buf: frame_from_vec(&v) };
        assert(pkt@ =~= v@);
        pkt
    }

    /// A frame of sixteen zero bytes.
    pub fn new() -> (pkt: Self)
        ensures
            pkt@ == zero_frame(),
    {
        let pkt = NiosPacket8x64 { buf: [0u8; 16] };
        assert(pkt@ =~= zero_frame());
        pkt
    }

    /// Writes the magic of this class and the four fields of a request.
    /// On a frame from [`Self::new`] the result is [`Self::frame`].
    pub fn set(&mut self, target_id: u8, flags: u8, addr: u8, data: u64)
        ensures
            final(self)@ == Self::with_fields(old(self)@, target_id, flags, addr, data),
    {
        self.set_magic(NIOS_PKT_8X64_MAGIC);
        self.set_target_id(target_id);
        self.set_flags(flags);
        self.set_addr(addr);
        self.set_data(data);
    }

    /// Builds the request frame that carries the given fields.
    pub fn build(target_id: u8, flags: u8, addr: u8, data: u64) -> (v: Vec<u8>)
        ensures
            v@ == Self::frame(target_id, flags, addr, data),
            v.len() == 16,
    {
        let mut pkt = Self::new();
        pkt.set(target_id, flags, addr, data);
        pkt.into_vec()
    }

    /// The 16 bytes of the frame.
    pub fn into_vec(self) -> (v: Vec<u8>)
        ensures
            v@ == self@,
            v.len() == 16,
    {
        frame_to_vec(&self.buf)
    }

    /// Makes a frame of the bytes of `v`, whatever they hold: its first 16
    /// bytes, padded with zeros where `v` is shorter.
    pub fn reuse(v: Vec<u8>) -> (pkt: Self)
        ensures
            pkt@ == fit16(v@),
            v.len() == 16 ==> pkt@ == v@,
    {
        let pkt = NiosPacket8x64 { buf: frame_from_vec(&v) };
        assert(v.len() == 16 ==> pkt@ =~= v@);
        pkt
    }

    /// Accepts `v` as a frame of this class. Anything that is not 16 bytes
    /// long or does not start with the magic of this class is a protocol
    /// violation.
    pub fn parse(v: Vec<u8>) -> (r: Result<Self, BladeRfError>)
        ensures
            match r {
                Ok(pkt) => Self::is_frame(v@) && pkt@ == v@,
                Err(e) => !Self::is_frame(v@) && e == BladeRfError::Protocol,
            },
    {
        if v.len() != 16 {
            return Err(BladeRfError::Protocol);
        }
        if v[NIOS_PKT_IDX_MAGIC] != NIOS_PKT_8X64_MAGIC {
            return Err(BladeRfError::Protocol);
        }
        Ok(Self::from_vec(v))
    }

    /// Judges what an exchange with the peripheral `target_id` gave back.
    ///
    /// A failed exchange is a transport error. A response that is not a
    /// frame of this class, or that names another target, is a protocol
    /// violation. A well-formed response with the success bit clear is a
    /// failed operation, however cleanly the transfer went. Anything else is
    /// the response frame.
    pub fn response(target_id: u8, exchanged: Result<Vec<u8>, TransportError>) -> (r: Result<
        Self,
        BladeRfError,
    >)
        ensures
            match exchanged {
                Err(e) => r == Err::<Self, BladeRfError>(BladeRfError::Transport(e)),
                Ok(v) => if !Self::is_frame(v@) || v@[1] != target_id {
                    r == Err::<Self, BladeRfError>(BladeRfError::Protocol)
                } else if !NiosPacket::flags_success(v@[2]) {
                    r == Err::<Self, BladeRfError>(BladeRfError::OperationFailed)
                } else {
                    r is Ok && r->Ok_0@ == v@
                },
            },
    {
        match exchanged {
            Err(e) => Err(BladeRfError::Transport(e)),
            Ok(v) => {
                let pkt = Self::parse(v)?;
                if pkt.target_id() != target_id {
                    Err(BladeRfError::Protocol)
                } else if !pkt.success() {
                    Err(BladeRfError::OperationFailed)
                } else {
                    Ok(pkt)
                }
            },
        }
    }

    /// The data that an exchange with the peripheral `target_id` gave, or
    /// the reason why it gave none: the data field of the response where
    /// [`Self::response`] accepts it, else the error of [`Self::response`].
    pub open spec fn data_in(target_id: u8, exchanged: Result<Vec<u8>, TransportError>) -> Result<
        u64,
        BladeRfError,
    > {
        match exchanged {
            Err(e) => Err(BladeRfError::Transport(e)),
            Ok(v) => if !Self::is_frame(v@) || v@[1] != target_id {
                Err(BladeRfError::Protocol)
            } else if !NiosPacket::flags_success(v@[2]) {
                Err(BladeRfError::OperationFailed)
            } else {
                Ok(Self::data_of(v@) as u64)
            },
        }
    }

    /// Judges what an exchange with the peripheral `target_id` gave back,
    /// as [`Self::response`] does, and takes the data out of the response.
    pub fn response_data(target_id: u8, exchanged: Result<Vec<u8>, TransportError>) -> (r: Result<
        u64,
        BladeRfError,
    >)
        ensures
            r == Self::data_in(target_id, exchanged),
    {
        match Self::response(target_id, exchanged) {
            Ok(pkt) => Ok(pkt.data()),
            Err(e) => Err(e),
        }
    }

    /// Whether the device reports success. Meaningful in responses only.
    pub fn success(&self) -> (r: bool)
        ensures
            r == NiosPacket::flags_success(self@[2]),
    {
        (self.buf[NIOS_PKT_IDX_FLAGS] & NIOS_PKT_FLAG_SUCCESS) != 0
    }

    pub fn magic(&self) -> (r: u8)
        ensures
            r == self@[0],
    {
        self.buf[NIOS_PKT_IDX_MAGIC]
    }

    pub fn target_id(&self) -> (r: u8)
        ensures
            r == self@[1],
    {
        self.buf[NIOS_PKT_IDX_TARGET_ID]
    }

    pub fn flags(&self) -> (r: u8)
        ensures
            r == self@[2],
    {
        self.buf[NIOS_PKT_IDX_FLAGS]
    }

    pub fn addr(&self) -> (r: u8)
        ensures
            r == Self::addr_of(self@),
    {
        proof {
            lemma_pow256_small(1);
        }
        load_le(&self.buf, NIOS_PKT_IDX_ADDR, 1) as u8
    }

    pub fn data(&self) -> (r: u64)
        ensures
            r == Self::data_of(self@),
    {
        proof {
            lemma_pow256_small(8);
        }
        load_le(&self.buf, NIOS_PKT_IDX_ADDR + 1, 8) as u64
    }

    /// Whether the frame asks for a write rather than a read.
    pub fn is_write(&self) -> (r: bool)
        ensures
            r == NiosPacket::flags_write(self@[2]),
    {
        (self.buf[NIOS_PKT_IDX_FLAGS] & NIOS_PKT_FLAG_WRITE) != 0
    }

    pub fn set_magic(&mut self, magic: u8) -> (ret: &mut Self)
        ensures
            ret@ == old(self)@.update(0, magic),
            *final(self) == *final(ret),
    {
        self.buf[NIOS_PKT_IDX_MAGIC] = magic;
        self
    }

    pub fn set_target_id(&mut self, target_id: u8) -> (ret: &mut Self)
        ensures
            ret@ == old(self)@.update(1, target_id),
            *final(self) == *final(ret),
    {
        self.buf[NIOS_PKT_IDX_TARGET_ID] = target_id;
        self
    }

    /// Raises the bits of `flag` in the flags byte.
    pub fn set_flag(&mut self, flag: u8) -> (ret: &mut Self)
        ensures
            ret@ == old(self)@.update(2, old(self)@[2] | flag),
            *final(self) == *final(ret),
    {
        let flags = self.buf[NIOS_PKT_IDX_FLAGS];
        self.set_flags(flags | flag)
    }

    pub fn set_flags(&mut self, flags: u8) -> (ret: &mut Self)
        ensures
            ret@ == old(self)@.update(2, flags),
            *final(self) == *final(ret),
    {
        self.buf[NIOS_PKT_IDX_FLAGS] = flags;
        self
    }

    pub fn set_addr(&mut self, addr: u8) -> (ret: &mut Self)
        ensures
            ret@ == splice(old(self)@, 4, le_bytes(addr as nat, 1)),
            *final(self) == *final(ret),
    {
        store_le(&mut self.buf, NIOS_PKT_IDX_ADDR, 1, addr as u64);
        self
    }

    pub fn set_data(&mut self, data: u64) -> (ret: &mut Self)
        ensures
            ret@ == splice(old(self)@, 5, le_bytes(data as nat, 8)),
            *final(self) == *final(ret),
    {
        store_le(&mut self.buf, NIOS_PKT_IDX_ADDR + 1, 8, data as u64);
        self
    }
}

} // verus!
