//! CAN bus frames.
//!
//! The binary records `can_frame` and `canfd_frame` mirror the Linux
//! kernel's native frame layouts field for field: a 32-bit composite ID
//! word, a length code, and the payload (8 bytes classic, 64 bytes FD; the
//! FD record adds a flag byte). An explicit, checked encoding to and from
//! the exact byte layout replaces raw reinterpretation of the records, so
//! a transport can marshal them without this crate touching I/O.
//!
//! The composite ID word holds three out-of-band flag bits — bit 31 EFF
//! (extended frame), bit 30 RTR (remote request), bit 29 ERR (error
//! frame) — and, below them, the identifier bits (11 used when EFF is
//! clear, 29 when it is set) or, when ERR is set, the error-condition bits.

use vstd::prelude::*;

use crate::embedded;
use crate::embedded::Frame as _;
use crate::error::{CanError, ConstructionError};
use crate::id::{ExtendedId, Id, StandardId};

verus! {

/// The composite ID word exchanged with the kernel: identifier bits plus
/// the EFF/RTR/ERR flags.
#[allow(non_camel_case_types)]
pub type canid_t = u32;

/// Bit-rate-switch flag of an FD frame's flag byte.
pub const CANFD_BRS: u32 = 0x01;

/// Error-state-indicator flag of an FD frame's flag byte.
pub const CANFD_ESI: u32 = 0x02;

/// Largest payload of an FD frame, in bytes.
pub const CANFD_MAX_DLEN: usize = 64;

/// EFF flag: the frame uses the 29-bit extended ID format (bit 31).
pub const CAN_EFF_FLAG: u32 = 0x8000_0000;

/// RTR flag: the frame is a remote transmission request (bit 30).
pub const CAN_RTR_FLAG: u32 = 0x4000_0000;

/// ERR flag: the frame reports an error condition (bit 29).
pub const CAN_ERR_FLAG: u32 = 0x2000_0000;

/// Largest payload of a classic frame, in bytes.
pub const CAN_MAX_DLEN: usize = 8;

/// Mask of the identifier bits of a standard frame (11 bits).
pub const CAN_SFF_MASK: u32 = 0x7FF;

/// Mask of the error-condition bits of an error frame. It occupies the
/// same bit positions as `CAN_EFF_MASK`; which reading applies depends on
/// whether the ERR flag is set.
pub const CAN_ERR_MASK: u32 = 0x1FFF_FFFF;

/// Mask of the identifier bits of an extended frame (29 bits).
pub const CAN_EFF_MASK: u32 = 0x1FFF_FFFF;

/// An error mask that reports all error conditions.
pub const ERR_MASK_ALL: u32 = CAN_ERR_MASK;

/// An error mask that silently drops all error conditions.
pub const ERR_MASK_NONE: u32 = 0;

/// The out-of-band flag bits of a composite ID word.
#[derive(Debug, Copy, Clone, PartialEq, Eq, Structural)]
pub struct IdFlags {
    /// The composite ID word the flags are read from.
    pub can_id: u32,
}

impl IdFlags {
    /// Wraps a composite ID word for flag inspection.
    pub fn new(can_id: u32) -> (r: Self)
        ensures
            r.can_id == can_id,
    {
        Self { can_id }
    }

    /// Whether the EFF (extended frame format) flag is set.
    pub fn is_extended(&self) -> (r: bool)
        ensures
            r == (self.can_id & CAN_EFF_FLAG != 0),
    {
        (self.can_id & CAN_EFF_FLAG) != 0
    }

    /// Whether the RTR (remote transmission request) flag is set.
    pub fn is_remote(&self) -> (r: bool)
        ensures
            r == (self.can_id & CAN_RTR_FLAG != 0),
    {
        (self.can_id & CAN_RTR_FLAG) != 0
    }

    /// Whether the ERR (error frame) flag is set.
    pub fn is_error(&self) -> (r: bool)
        ensures
            r == (self.can_id & CAN_ERR_FLAG != 0),
    {
        (self.can_id & CAN_ERR_FLAG) != 0
    }
}

/// The flag byte of an FD frame.
#[derive(Debug, Copy, Clone, PartialEq, Eq, Structural)]
pub struct FdFlags {
    /// The raw flag bits.
    pub flags: u32,
}

impl FdFlags {
    /// Wraps an FD flag byte for inspection.
    pub fn new(flags: u32) -> (r: Self)
        ensures
            r.flags == flags,
    {
        Self { flags }
    }

    /// Whether the bit-rate-switch flag is set.
    pub fn is_brs(&self) -> (r: bool)
        ensures
            r == (self.flags & CANFD_BRS != 0),
    {
        (self.flags & CANFD_BRS) != 0
    }

    /// Whether the error-state-indicator flag is set.
    pub fn is_esi(&self) -> (r: bool)
        ensures
            r == (self.flags & CANFD_ESI != 0),
    {
        (self.flags & CANFD_ESI) != 0
    }
}

/// A classic CAN 2.0 frame record, laid out as the kernel's native
/// structure: composite ID word, length code, 8-byte payload. Payload
/// bytes beyond the length code are don't-care but always present.
#[allow(non_camel_case_types)]
#[derive(Debug, Copy, Clone, PartialEq, Eq)]
#[verifier::ext_equal]
pub struct can_frame {
    /// Composite ID word with EFF/RTR/ERR flags.
    pub can_id: canid_t,
    /// Data length code.
    pub can_dlc: u8,
    /// Payload, zero-padded past the length code.
    pub data: [u8; 8],
}

/// A flexible-data-rate CAN frame record, laid out as the kernel's native
/// structure: composite ID word, length, flag byte, 64-byte payload.
#[allow(non_camel_case_types)]
#[derive(Debug, Copy, Clone, PartialEq, Eq)]
#[verifier::ext_equal]
pub struct canfd_frame {
    /// Composite ID word with EFF/RTR/ERR flags.
    pub can_id: canid_t,
    /// Payload length in bytes.
    pub len: u8,
    /// Additional FD flags (bit-rate-switch, error-state-indicator).
    pub flags: u8,
    /// Payload, zero-padded past the length.
    pub data: [u8; 64],
}

/// Creates a default classic `can_frame` with every field zero.
pub fn can_frame_default() -> (r: can_frame)
    ensures
        r.can_id == 0,
        r.can_dlc == 0,
        forall|i: int| 0 <= i < 8 ==> r.data@[i] == 0,
{
    can_frame { can_id: 0, can_dlc: 0, data: [0; 8] }
}

/// Creates a default FD `canfd_frame` with every field zero.
pub fn canfd_frame_default() -> (r: canfd_frame)
    ensures
        r.can_id == 0,
        r.len == 0,
        r.flags == 0,
        forall|i: int| 0 <= i < 64 ==> r.data@[i] == 0,
{
    canfd_frame { can_id: 0, len: 0, flags: 0, data: [0; 64] }
}

/// The composite ID word an identifier encodes to: the raw value, with the
/// EFF flag OR-ed in for an extended identifier.
pub open spec fn spec_id_to_canid_t(id: Id) -> canid_t {
    match id {
        Id::Standard(s) => s@ as canid_t,
        Id::Extended(e) => e@ | CAN_EFF_FLAG,
    }
}

/// The identifier a bare integer classifies to: standard for values up to
/// `0x7FF`, extended up to `0x1FFF_FFFF`, nothing beyond.
pub open spec fn spec_id_from_raw(raw: u32) -> Option<Id> {
    if raw <= CAN_SFF_MASK {
        Some(Id::Standard(StandardId::spec_new(raw as u16)))
    } else if raw <= CAN_EFF_MASK {
        Some(Id::Extended(ExtendedId::spec_new(raw)))
    } else {
        None
    }
}

/// Gets the `canid_t` value from an `Id`.
///
/// If it's an extended ID, the `CAN_EFF_FLAG` bit is also set.
pub fn id_to_canid_t(id: Id) -> (r: canid_t)
    ensures
        r == spec_id_to_canid_t(id),
        id matches Id::Standard(s) ==> r == s@ as u32 && r & CAN_EFF_FLAG == 0,
        id matches Id::Extended(e) ==> r == (e@ | CAN_EFF_FLAG) && r & CAN_EFF_FLAG != 0,
{
    match id {
        Id::Standard(sid) => {
            let r = sid.as_raw() as canid_t;
            proof {
                assert(r <= 0xFFFF ==> r & 0x8000_0000 == 0) by (bit_vector);
            }
            r
        },
        Id::Extended(eid) => {
            let r = eid.as_raw() | CAN_EFF_FLAG;
            proof {
                let v = eid@;
                assert((v | 0x8000_0000) & 0x8000_0000 != 0) by (bit_vector);
            }
            r
        },
    }
}

/// Determines if the ID is a 29-bit extended ID.
pub fn id_is_extended(id: &Id) -> (r: bool)
    ensures
        r == (*id is Extended),
{
    matches!(id, Id::Extended(_))
}

/// Creates a CAN ID from a raw integer value.
///
/// If the `id` is at most `0x7FF`, it's assumed to be a standard ID,
/// otherwise it is created as an extended ID. If you require an extended ID
/// at most `0x7FF`, create it explicitly. Returns `None` only if the value
/// exceeds 29 bits.
pub fn id_from_raw(id: u32) -> (r: Option<Id>)
    ensures
        r == spec_id_from_raw(id),
        id <= CAN_SFF_MASK ==> (r matches Some(i) && i matches Id::Standard(s) && s@ == id),
        CAN_SFF_MASK < id <= CAN_EFF_MASK ==> (r matches Some(i) && i matches Id::Extended(e)
            && e@ == id),
        id > CAN_EFF_MASK ==> r is None,
        r matches Some(i) ==> i.wf(),
{
    if id <= CAN_SFF_MASK {
        match StandardId::new(id as u16) {
            Some(sid) => Some(Id::Standard(sid)),
            None => None,
        }
    } else {
        match ExtendedId::new(id) {
            Some(eid) => Some(Id::Extended(eid)),
            None => None,
        }
    }
}

/// Encoding an identifier that came from a raw value and masking the
/// result with the width appropriate to its variant recovers the raw
/// value: `id_from_raw` and `id_to_canid_t` are inverses modulo the EFF
/// flag bit.
pub proof fn lemma_id_round_trip(raw: u32)
    requires
        raw <= CAN_EFF_MASK,
    ensures
        spec_id_from_raw(raw) is Some,
        raw <= CAN_SFF_MASK ==> spec_id_to_canid_t(spec_id_from_raw(raw)->Some_0) & CAN_SFF_MASK
            == raw,
        raw > CAN_SFF_MASK ==> spec_id_to_canid_t(spec_id_from_raw(raw)->Some_0) & CAN_EFF_MASK
            == raw,
{
    if raw <= CAN_SFF_MASK {
        StandardId::lemma_spec_new(raw as u16);
        assert(raw <= 0x7FF ==> ((raw as u16) as u32) & 0x7FF == raw) by (bit_vector);
    } else {
        ExtendedId::lemma_spec_new(raw);
        assert(raw <= 0x1FFF_FFFF ==> (raw | 0x8000_0000) & 0x1FFF_FFFF == raw) by (bit_vector);
    }
}

/// The four bytes of a 32-bit word, least significant first, as the
/// little-endian platforms the kernel frame layout targets store it.
pub open spec fn spec_u32_le(x: u32) -> Seq<u8> {
    seq![
        (x & 0xFF) as u8,
        ((x >> 8) & 0xFF) as u8,
        ((x >> 16) & 0xFF) as u8,
        ((x >> 24) & 0xFF) as u8,
    ]
}

/// The 32-bit word read back from four bytes, least significant first.
pub open spec fn spec_u32_from_le(b: Seq<u8>) -> u32 {
    (b[0] as u32) | ((b[1] as u32) << 8) | ((b[2] as u32) << 16) | ((b[3] as u32) << 24)
}

/// Reading the four bytes of a word back yields the word.
pub proof fn lemma_u32_le_round_trip(x: u32)
    ensures
        spec_u32_le(x).len() == 4,
        spec_u32_from_le(spec_u32_le(x)) == x,
{
    assert((((x & 0xFF) as u8) as u32) | ((((x >> 8) & 0xFF) as u8) as u32) << 8 | ((((x >> 16)
        & 0xFF) as u8) as u32) << 16 | ((((x >> 24) & 0xFF) as u8) as u32) << 24 == x)
        by (bit_vector);
}

/// The exact 16-byte image of a classic frame record: ID word
/// (least-significant byte first), length code, three reserved zero bytes,
/// then the 8 payload bytes.
pub open spec fn spec_can_frame_bytes(f: can_frame) -> Seq<u8> {
    spec_u32_le(f.can_id) + seq![f.can_dlc, 0u8, 0u8, 0u8] + f.data@
}

/// The exact 72-byte image of an FD frame record: ID word
/// (least-significant byte first), length, flag byte, two reserved zero
/// bytes, then the 64 payload bytes.
pub open spec fn spec_canfd_frame_bytes(f: canfd_frame) -> Seq<u8> {
    spec_u32_le(f.can_id) + seq![f.len, f.flags, 0u8, 0u8] + f.data@
}

fn push_u32_le(v: &mut Vec<u8>, x: u32)
    ensures
        final(v)@ == old(v)@ + spec_u32_le(x),
{
    v.push((x & 0xFF) as u8);
    v.push(((x >> 8) & 0xFF) as u8);
    v.push(((x >> 16) & 0xFF) as u8);
    v.push(((x >> 24) & 0xFF) as u8);
    proof {
        assert(v@ =~= old(v)@ + spec_u32_le(x));
    }
}

fn read_u32_le(bytes: &[u8], off: usize) -> (r: u32)
    requires
        off + 4 <= bytes@.len(),
    ensures
        r == spec_u32_from_le(bytes@.subrange(off as int, off as int + 4)),
{
    let b0 = bytes[off] as u32;
    let b1 = bytes[off + 1] as u32;
    let b2 = bytes[off + 2] as u32;
    let b3 = bytes[off + 3] as u32;
    proof {
        assert(b1 <= 0xFF && b2 <= 0xFF && b3 <= 0xFF ==> b1 << 8 <= 0xFF00 && b2 << 16
            <= 0xFF_0000 && b3 << 24 <= 0xFF00_0000) by (bit_vector);
    }
    b0 | (b1 << 8) | (b2 << 16) | (b3 << 24)
}

/// Byte-level view of a kernel frame record.
///
/// A transport needs the exact native byte image of a record to exchange
/// it across the kernel or peripheral boundary. Instead of aliasing the
/// record's memory through a raw pointer, the view is an explicit, checked
/// encoding of the record into exactly `size` bytes.
pub trait AsPtr: Sized {
    /// The byte size of the underlying record.
    spec fn spec_size(&self) -> usize;

    /// The exact byte image of the underlying record.
    spec fn spec_bytes(&self) -> Seq<u8>;

    /// The size of the underlying record.
    fn size(&self) -> (r: usize)
        ensures
            r == self.spec_size(),
    ;

    /// Gets the byte image of the underlying record.
    fn as_bytes(&self) -> (r: Vec<u8>)
        ensures
            r@ == self.spec_bytes(),
            r@.len() == self.spec_size(),
    ;
}

impl AsPtr for can_frame {
    open spec fn spec_size(&self) -> usize {
        16
    }

    open spec fn spec_bytes(&self) -> Seq<u8> {
        spec_can_frame_bytes(*self)
    }

    fn size(&self) -> (r: usize) {
        16
    }

    fn as_bytes(&self) -> (r: Vec<u8>) {
        let mut v: Vec<u8> = Vec::new();
        push_u32_le(&mut v, self.can_id);
        v.push(self.can_dlc);
        v.push(0);
        v.push(0);
        v.push(0);
        proof {
            assert(v@ =~= spec_u32_le(self.can_id) + seq![self.can_dlc, 0u8, 0u8, 0u8]
                + self.data@.subrange(0, 0));
        }
        let mut i: usize = 0;
        while i < 8
            invariant
                i <= 8,
                v@ == spec_u32_le(self.can_id) + seq![self.can_dlc, 0u8, 0u8, 0u8]
                    + self.data@.subrange(0, i as int),
            decreases 8 - i,
        {
            v.push(self.data[i]);
            proof {
                assert(v@ =~= spec_u32_le(self.can_id) + seq![self.can_dlc, 0u8, 0u8, 0u8]
                    + self.data@.subrange(0, i as int + 1));
            }
            i += 1;
        }
        proof {
            assert(v@ =~= spec_can_frame_bytes(*self));
        }
        v
    }
}

impl AsPtr for canfd_frame {
    open spec fn spec_size(&self) -> usize {
        72
    }

    open spec fn spec_bytes(&self) -> Seq<u8> {
        spec_canfd_frame_bytes(*self)
    }

    fn size(&self) -> (r: usize) {
        72
    }

    fn as_bytes(&self) -> (r: Vec<u8>) {
        let mut v: Vec<u8> = Vec::new();
        push_u32_le(&mut v, self.can_id);
        v.push(self.len);
        v.push(self.flags);
        v.push(0);
        v.push(0);
        proof {
            assert(v@ =~= spec_u32_le(self.can_id) + seq![self.len, self.flags, 0u8, 0u8]
                + self.data@.subrange(0, 0));
        }
        let mut i: usize = 0;
        while i < 64
            invariant
                i <= 64,
                v@ == spec_u32_le(self.can_id) + seq![self.len, self.flags, 0u8, 0u8]
                    + self.data@.subrange(0, i as int),
            decreases 64 - i,
        {
            v.push(self.data[i]);
            proof {
                assert(v@ =~= spec_u32_le(self.can_id) + seq![self.len, self.flags, 0u8, 0u8]
                    + self.data@.subrange(0, i as int + 1));
            }
            i += 1;
        }
        proof {
            assert(v@ =~= spec_canfd_frame_bytes(*self));
        }
        v
    }
}

/// Decodes the 16-byte image of a classic frame record.
///
/// This is the checked inverse of the byte view: any byte string that is
/// the image of some record decodes back to exactly that record. Reserved
/// bytes are don't-care on decode.
pub fn can_frame_from_bytes(bytes: &[u8]) -> (r: Option<can_frame>)
    ensures
        r is Some <==> bytes@.len() == 16,
        r matches Some(f) ==> ({
            &&& f.can_id == spec_u32_from_le(bytes@.subrange(0, 4))
            &&& f.can_dlc == bytes@[4]
            &&& f.data@ =~= bytes@.subrange(8, 16)
        }),
        forall|g: can_frame| bytes@ == #[trigger] spec_can_frame_bytes(g) ==> r == Some(g),
{
    if bytes.len() != 16 {
        proof {
            assert forall|g: can_frame| bytes@ == #[trigger] spec_can_frame_bytes(g) implies false
            by {
                assert(spec_can_frame_bytes(g).len() == 16);
            }
        }
        return None;
    }
    let can_id = read_u32_le(bytes, 0);
    let can_dlc = bytes[4];
    let mut data: [u8; 8] = [0; 8];
    let mut i: usize = 0;
    while i < 8
        invariant
            i <= 8,
            bytes@.len() == 16,
            forall|j: int| 0 <= j < i ==> data@[j] == bytes@[8 + j],
        decreases 8 - i,
    {
        data[i] = bytes[8 + i];
        i += 1;
    }
    let f = can_frame { can_id, can_dlc, data };
    proof {
        assert(f.data@ =~= bytes@.subrange(8, 16));
        assert forall|g: can_frame| bytes@ == #[trigger] spec_can_frame_bytes(g) implies Some(f)
            == Some(g) by {
            assert(bytes@.subrange(0, 4) =~= spec_u32_le(g.can_id));
            lemma_u32_le_round_trip(g.can_id);
            assert(f.can_dlc == g.can_dlc);
            assert(f.data@ =~= g.data@);
            assert(f =~= g);
        }
    }
    Some(f)
}

/// Decodes the 72-byte image of an FD frame record.
///
/// This is the checked inverse of the byte view: any byte string that is
/// the image of some record decodes back to exactly that record. Reserved
/// bytes are don't-care on decode.
pub fn canfd_frame_from_bytes(bytes: &[u8]) -> (r: Option<canfd_frame>)
    ensures
        r is Some <==> bytes@.len() == 72,
        r matches Some(f) ==> ({
            &&& f.can_id == spec_u32_from_le(bytes@.subrange(0, 4))
            &&& f.len == bytes@[4]
            &&& f.flags == bytes@[5]
            &&& f.data@ =~= bytes@.subrange(8, 72)
        }),
        forall|g: canfd_frame| bytes@ == #[trigger] spec_canfd_frame_bytes(g) ==> r == Some(g),
{
    if bytes.len() != 72 {
        proof {
            assert forall|g: canfd_frame| bytes@ == #[trigger] spec_canfd_frame_bytes(g) implies
                false by {
                assert(spec_canfd_frame_bytes(g).len() == 72);
            }
        }
        return None;
    }
    let can_id = read_u32_le(bytes, 0);
    let len = bytes[4];
    let flags = bytes[5];
    let mut data: [u8; 64] = [0; 64];
    let mut i: usize = 0;
    while i < 64
        invariant
            i <= 64,
            bytes@.len() == 72,
            forall|j: int| 0 <= j < i ==> data@[j] == bytes@[8 + j],
        decreases 64 - i,
    {
        data[i] = bytes[8 + i];
        i += 1;
    }
    let f = canfd_frame { can_id, len, flags, data };
    proof {
        assert(f.data@ =~= bytes@.subrange(8, 72));
        assert forall|g: canfd_frame| bytes@ == #[trigger] spec_canfd_frame_bytes(g) implies Some(
            f,
        ) == Some(g) by {
            assert(bytes@.subrange(0, 4) =~= spec_u32_le(g.can_id));
            lemma_u32_le_round_trip(g.can_id);
            assert(f.len == g.len);
            assert(f.flags == g.flags);
            assert(f.data@ =~= g.data@);
            assert(f =~= g);
        }
    }
    Some(f)
}

/// Shared trait for CAN frames that expose their composite SocketCAN ID
/// word, beyond the basic `embedded::Frame` capability set. A transport's
/// concrete frame types implement it.
pub trait Frame: embedded::Frame {
    /// The composite ID word, with EFF/RTR/ERR flags.
    spec fn spec_id_word(&self) -> canid_t;

    /// The frame after its identifier is set to `id`.
    spec fn spec_with_id(&self, id: Id) -> Self;

    /// Creates a frame using a raw, integer CAN ID.
    ///
    /// If the `id` is at most `0x7FF`, it's assumed to be a standard ID,
    /// otherwise it is created as an extended ID. If you require an
    /// extended ID at most `0x7FF`, use `new()`.
    fn from_raw_id(id: u32, data: &[u8]) -> (r: Option<Self>)
        ensures
            id > CAN_EFF_MASK ==> r is None,
            data@.len() > Self::spec_capacity() ==> r is None,
    ;

    /// Creates a remote frame using a raw, integer CAN ID.
    ///
    /// If the `id` is at most `0x7FF`, it's assumed to be a standard ID,
    /// otherwise it is created as an extended ID. If you require an
    /// extended ID at most `0x7FF`, use `new_remote()`.
    fn remote_from_raw_id(id: u32, dlc: usize) -> (r: Option<Self>)
        ensures
            id > CAN_EFF_MASK ==> r is None,
            dlc > Self::spec_capacity() ==> r is None,
    ;

    /// Get the composite SocketCAN ID word, with EFF/RTR/ERR flags.
    fn id_word(&self) -> (r: canid_t)
        ensures
            r == self.spec_id_word(),
    ;

    /// Return the actual raw CAN ID, stripping the EFF/RTR/ERR flag bits
    /// with the mask appropriate to the frame's extended or standard
    /// status.
    fn raw_id(&self) -> (r: canid_t)
        ensures
            r == self.spec_id_word() & (if self.spec_is_extended() {
                CAN_EFF_MASK
            } else {
                CAN_SFF_MASK
            }),
    ;

    /// Get the data length.
    fn len(&self) -> (r: usize)
        ensures
            r == self.spec_dlc(),
    ;

    /// Sets the CAN ID for the frame.
    fn set_id(&mut self, id: Id)
        ensures
            *final(self) == old(self).spec_with_id(id),
    ;
}

/// A raw frame read from an FD-capable socket: either a classic CAN 2.0
/// record or an FD record. This is the boundary value a transport hands
/// to or receives from this data model.
#[derive(Debug, Copy, Clone)]
pub enum CanRawFrame {
    /// A classic CAN 2.0 frame, with up to 8 bytes of data.
    Classic(can_frame),
    /// A flexible data rate frame, with up to 64 bytes of data.
    Fd(canfd_frame),
}

impl From<can_frame> for CanRawFrame {
    /// Wraps a classic frame record.
    fn from(frame: can_frame) -> (r: CanRawFrame) {
        CanRawFrame::Classic(frame)
    }
}

impl vstd::std_specs::convert::FromSpecImpl<can_frame> for CanRawFrame {
    open spec fn obeys_from_spec() -> bool {
        true
    }

    open spec fn from_spec(frame: can_frame) -> CanRawFrame {
        CanRawFrame::Classic(frame)
    }
}

impl From<canfd_frame> for CanRawFrame {
    /// Wraps an FD frame record.
    fn from(frame: canfd_frame) -> (r: CanRawFrame) {
        CanRawFrame::Fd(frame)
    }
}

impl vstd::std_specs::convert::FromSpecImpl<canfd_frame> for CanRawFrame {
    open spec fn obeys_from_spec() -> bool {
        true
    }

    open spec fn from_spec(frame: canfd_frame) -> CanRawFrame {
        CanRawFrame::Fd(frame)
    }
}

/// The code a structured error encodes into the error-bit region of an
/// error frame's ID word. Every case has a distinct assigned code except
/// `DecodingFailure`, which has no canonical bit pattern and maps to 0.
pub open spec fn spec_error_code(err: CanError) -> u32 {
    match err {
        CanError::TransmitTimeout => 0x0001,
        CanError::LostArbitration(_) => 0x0002,
        CanError::ControllerProblem(_) => 0x0004,
        CanError::ProtocolViolation { vtype: _, location: _ } => 0x0008,
        CanError::TransceiverError => 0x0010,
        CanError::NoAck => 0x0020,
        CanError::BusOff => 0x0040,
        CanError::BusError => 0x0080,
        CanError::Restarted => 0x0100,
        CanError::DecodingFailure => 0,
        CanError::Unknown(e) => e,
    }
}

/// The fixed 8-byte payload a structured error encodes into an error
/// frame: the arbitration-lost bit position in byte 0, the
/// controller-problem code in byte 1, the protocol-violation type and
/// location in bytes 2 and 3, and zero everywhere else.
pub open spec fn spec_error_payload(err: CanError) -> Seq<u8> {
    match err {
        CanError::LostArbitration(bit) => seq![bit, 0u8, 0u8, 0u8, 0u8, 0u8, 0u8, 0u8],
        CanError::ControllerProblem(prob) => seq![0u8, prob, 0u8, 0u8, 0u8, 0u8, 0u8, 0u8],
        CanError::ProtocolViolation { vtype, location } => seq![
            0u8,
            0u8,
            vtype,
            location,
            0u8,
            0u8,
            0u8,
            0u8,
        ],
        _ => seq![0u8, 0u8, 0u8, 0u8, 0u8, 0u8, 0u8, 0u8],
    }
}

/// Whether `bits` is one of the assigned error codes. Any new error case
/// must take a code disjoint from these before the codec is conformant.
pub open spec fn spec_is_assigned_code(bits: u32) -> bool {
    bits == 0x0001 || bits == 0x0002 || bits == 0x0004 || bits == 0x0008 || bits == 0x0010
        || bits == 0x0020 || bits == 0x0040 || bits == 0x0080 || bits == 0x0100
}

/// The structured error decoded from an error frame's error bits and
/// payload: each assigned code recovers its case and case-specific bytes;
/// every other value of the error bits yields `Unknown`.
pub open spec fn spec_decode_error(bits: u32, data: Seq<u8>) -> CanError {
    if bits == 0x0001 {
        CanError::TransmitTimeout
    } else if bits == 0x0002 {
        CanError::LostArbitration(data[0])
    } else if bits == 0x0004 {
        CanError::ControllerProblem(data[1])
    } else if bits == 0x0008 {
        CanError::ProtocolViolation { vtype: data[2], location: data[3] }
    } else if bits == 0x0010 {
        CanError::TransceiverError
    } else if bits == 0x0020 {
        CanError::NoAck
    } else if bits == 0x0040 {
        CanError::BusOff
    } else if bits == 0x0080 {
        CanError::BusError
    } else if bits == 0x0100 {
        CanError::Restarted
    } else {
        CanError::Unknown(bits)
    }
}

/// Encoding a structured error into an error frame and decoding it back
/// recovers the same value. The two documented exceptions are left out by
/// the preconditions: `DecodingFailure` has no bit pattern of its own (it
/// encodes to code 0 and decodes as `Unknown(0)`), and an `Unknown` value
/// whose bits exceed the error mask or collide with an assigned code
/// decodes to that masked value or assigned case instead.
pub proof fn lemma_error_round_trip(err: CanError)
    requires
        !(err is DecodingFailure),
        err matches CanError::Unknown(bits) ==> bits <= CAN_ERR_MASK && !spec_is_assigned_code(
            bits,
        ),
    ensures
        spec_decode_error(spec_error_code(err) & CAN_ERR_MASK, spec_error_payload(err)) == err,
{
    let c = spec_error_code(err);
    assert(c <= 0x1FFF_FFFF ==> c & 0x1FFF_FFFF == c) by (bit_vector);
}

/// A SocketCAN error frame.
///
/// This is returned from a read/receive by the OS or interface device
/// driver when it detects an error, such as a problem on the bus. The
/// frame encodes detailed information about the error, which can be
/// decoded into a structured [`CanError`] value.
///
/// It wraps a classic `can_frame` whose ID word carries the ERR flag.
#[derive(Debug, Copy, Clone)]
pub struct CanErrorFrame(can_frame);

impl CanErrorFrame {
    /// The wrapped kernel frame record.
    pub closed spec fn spec_inner(self) -> can_frame {
        self.0
    }

    /// An error frame always carries the ERR flag in its ID word.
    pub open spec fn wf(self) -> bool {
        self.spec_inner().can_id & CAN_ERR_FLAG != 0
    }

    /// The error-condition bits of the ID word.
    pub open spec fn spec_error_bits(self) -> u32 {
        self.spec_inner().can_id & CAN_ERR_MASK
    }

    /// Creates a CAN error frame from raw parts.
    ///
    /// Note that an application would not normally _ever_ create an error
    /// frame. This is included mainly to aid in implementing mocks and
    /// other tests for an application.
    ///
    /// The data byte slice should have the necessary codes for the
    /// supplied error. They will be zero padded to a full frame of 8
    /// bytes. Fails exactly when `data` is longer than 8 bytes.
    ///
    /// Also note:
    /// - The error flag is forced on
    /// - The other, non-error, flags are forced off
    /// - The length code is always the full classic length, regardless of
    ///   the length of the `data` parameter provided.
    pub fn new_error(can_id: canid_t, data: &[u8]) -> (r: Result<CanErrorFrame, ConstructionError>)
        ensures
            data@.len() <= 8 <==> r is Ok,
            r matches Err(e) ==> e == ConstructionError::TooMuchData,
            r matches Ok(f) ==> ({
                &&& f.wf()
                &&& f.spec_id_word() == ((can_id & CAN_ERR_MASK) | CAN_ERR_FLAG)
                &&& f.spec_id_word() & CAN_EFF_FLAG == 0
                &&& f.spec_id_word() & CAN_RTR_FLAG == 0
                &&& f.spec_error_bits() == can_id & CAN_ERR_MASK
                &&& f.spec_dlc() == 8
                &&& f.spec_data() == data@ + Seq::new((8 - data@.len()) as nat, |i: int| 0u8)
            }),
    {
        let n = data.len();
        if n <= 8 {
            let mut frame = can_frame_default();
            frame.can_id = (can_id & CAN_ERR_MASK) | CAN_ERR_FLAG;
            frame.can_dlc = 8;
            let mut i: usize = 0;
            while i < n
                invariant
                    n == data@.len(),
                    n <= 8,
                    i <= n,
                    frame.can_id == (can_id & CAN_ERR_MASK) | CAN_ERR_FLAG,
                    frame.can_dlc == 8,
                    forall|j: int| 0 <= j < i ==> frame.data@[j] == data@[j],
                    forall|j: int| i <= j < 8 ==> frame.data@[j] == 0,
                decreases n - i,
            {
                frame.data[i] = data[i];
                i += 1;
            }
            proof {
                let w = frame.can_id;
                assert(w == (can_id & 0x1FFF_FFFF) | 0x2000_0000 ==> (w & 0x2000_0000 != 0) && (w
                    & 0x8000_0000 == 0) && (w & 0x4000_0000 == 0) && (w & 0x1FFF_FFFF == can_id
                    & 0x1FFF_FFFF)) by (bit_vector);
                assert(frame.data@ =~= data@ + Seq::new((8 - data@.len()) as nat, |k: int| 0u8));
            }
            Ok(CanErrorFrame(frame))
        } else {
            Err(ConstructionError::TooMuchData)
        }
    }

    /// Return the error bits from the ID word of the error frame.
    pub fn error_bits(&self) -> (r: u32)
        ensures
            r == self.spec_error_bits(),
    {
        self.0.can_id & CAN_ERR_MASK
    }

    /// Converts this error frame into a structured `CanError`.
    ///
    /// Each assigned error code recovers its case together with its
    /// case-specific payload bytes; any other error-bit value yields
    /// `CanError::Unknown` holding the raw bits.
    pub fn into_error(self) -> (r: CanError)
        ensures
            r == spec_decode_error(self.spec_error_bits(), self.spec_data()),
    {
        let bits = self.error_bits();
        if bits == 0x0001 {
            CanError::TransmitTimeout
        } else if bits == 0x0002 {
            CanError::LostArbitration(self.0.data[0])
        } else if bits == 0x0004 {
            CanError::ControllerProblem(self.0.data[1])
        } else if bits == 0x0008 {
            CanError::ProtocolViolation { vtype: self.0.data[2], location: self.0.data[3] }
        } else if bits == 0x0010 {
            CanError::TransceiverError
        } else if bits == 0x0020 {
            CanError::NoAck
        } else if bits == 0x0040 {
            CanError::BusOff
        } else if bits == 0x0080 {
            CanError::BusError
        } else if bits == 0x0100 {
            CanError::Restarted
        } else {
            CanError::Unknown(bits)
        }
    }

    /// Try to create a `CanErrorFrame` from a classic `can_frame`.
    ///
    /// This succeeds if and only if the source frame is marked as an error
    /// frame: its ID word carries the ERR flag. It is the sole legal way
    /// to obtain an error frame for a frame actually observed on the bus,
    /// and it keeps the source frame unchanged.
    pub fn try_from(frame: can_frame) -> (r: Result<CanErrorFrame, ConstructionError>)
        ensures
            frame.can_id & CAN_ERR_FLAG != 0 <==> r is Ok,
            r matches Ok(f) ==> f.spec_inner() == frame && f.wf(),
            r matches Err(e) ==> e == ConstructionError::WrongFrameType,
    {
        if frame.can_id & CAN_ERR_FLAG != 0 {
            Ok(CanErrorFrame(frame))
        } else {
            Err(ConstructionError::WrongFrameType)
        }
    }

    /// Encodes a structured error into an error frame, by the fixed
    /// encoding table: each case places its assigned code in the error-bit
    /// region of the ID word and its case-specific bytes in the payload.
    ///
    /// `CanError::DecodingFailure` has no canonical bit pattern and is
    /// deliberately mapped to code 0, so that direction of the conversion
    /// is lossy: round-tripping a decoding-failure value is not
    /// guaranteed.
    pub fn from(err: CanError) -> (r: CanErrorFrame)
        ensures
            r.wf(),
            r.spec_dlc() == 8,
            r.spec_error_bits() == spec_error_code(err) & CAN_ERR_MASK,
            !(err is Unknown) ==> r.spec_error_bits() == spec_error_code(err),
            r.spec_data() == spec_error_payload(err),
    {
        let mut data: [u8; 8] = [0; 8];
        let id: canid_t = match err {
            CanError::TransmitTimeout => 0x0001,
            CanError::LostArbitration(bit) => {
                data[0] = bit;
                0x0002
            },
            CanError::ControllerProblem(prob) => {
                data[1] = prob;
                0x0004
            },
            CanError::ProtocolViolation { vtype, location } => {
                data[2] = vtype;
                data[3] = location;
                0x0008
            },
            CanError::TransceiverError => 0x0010,
            CanError::NoAck => 0x0020,
            CanError::BusOff => 0x0040,
            CanError::BusError => 0x0080,
            CanError::Restarted => 0x0100,
            CanError::DecodingFailure => 0,
            CanError::Unknown(e) => e,
        };
        let frame = Self::new_error(id, data.as_slice()).unwrap();
        proof {
            let c = spec_error_code(err);
            assert(c <= 0x1FFF_FFFF ==> c & 0x1FFF_FFFF == c) by (bit_vector);
            assert(frame.spec_data() =~= spec_error_payload(err));
        }
        frame
    }

    /// Sets the data payload of the frame.
    ///
    /// This always fails on an error frame: error frames are receive-only
    /// and their payload layout is fixed by construction.
    pub fn set_data(&mut self, data: &[u8]) -> (r: Result<(), ConstructionError>)
        ensures
            *final(self) == *old(self),
            r matches Err(e) && e == ConstructionError::WrongFrameType,
    {
        Err(ConstructionError::WrongFrameType)
    }
}

impl AsPtr for CanErrorFrame {
    open spec fn spec_size(&self) -> usize {
        16
    }

    open spec fn spec_bytes(&self) -> Seq<u8> {
        spec_can_frame_bytes(self.spec_inner())
    }

    /// The byte size of the wrapped classic frame record.
    fn size(&self) -> (r: usize) {
        16
    }

    /// The byte image of the wrapped classic frame record, compatible
    /// with the Linux C API layout.
    fn as_bytes(&self) -> (r: Vec<u8>) {
        self.0.as_bytes()
    }
}

impl embedded::Frame for CanErrorFrame {
    open spec fn spec_capacity() -> usize {
        8
    }

    open spec fn spec_is_extended(&self) -> bool {
        false
    }

    open spec fn spec_is_remote_frame(&self) -> bool {
        false
    }

    open spec fn spec_is_data_frame(&self) -> bool {
        false
    }

    open spec fn spec_id(&self) -> Id {
        Id::Standard(StandardId::spec_new(0))
    }

    open spec fn spec_dlc(&self) -> usize {
        self.spec_inner().can_dlc as usize
    }

    open spec fn spec_data(&self) -> Seq<u8> {
        self.spec_inner().data@
    }

    /// Create an error frame.
    ///
    /// Note that an application would not normally _ever_ create an error
    /// frame. This is included mainly to aid in implementing mocks and
    /// other tests for an application.
    ///
    /// This will set the error bit in the CAN ID word.
    fn new(id: Id, data: &[u8]) -> (r: Option<CanErrorFrame>)
        ensures
            data@.len() <= 8 <==> r is Some,
            r matches Some(f) ==> f.wf() && f.spec_id_word() == ((spec_id_to_canid_t(id)
                & CAN_ERR_MASK) | CAN_ERR_FLAG),
    {
        let can_id = id_to_canid_t(id);
        match Self::new_error(can_id, data) {
            Ok(frame) => Some(frame),
            Err(_) => None,
        }
    }

    /// The application should not create a remote error frame.
    /// This will always return `None`.
    fn new_remote(id: Id, dlc: usize) -> (r: Option<CanErrorFrame>)
        ensures
            r is None,
    {
        None
    }

    /// An error frame carries error-condition bits, not an identifier, so
    /// it never uses the extended ID format.
    fn is_extended(&self) -> (r: bool) {
        false
    }

    fn is_standard(&self) -> (r: bool) {
        true
    }

    /// Check if frame is a remote transmission request.
    fn is_remote_frame(&self) -> (r: bool) {
        false
    }

    /// Check if frame is a data frame.
    fn is_data_frame(&self) -> (r: bool) {
        false
    }

    /// An error frame carries no identifier; the highest-priority standard
    /// identifier stands in for it.
    fn id(&self) -> (r: Id) {
        Id::Standard(StandardId::new_unchecked(0))
    }

    /// Data length code.
    fn dlc(&self) -> (r: usize) {
        self.0.can_dlc as usize
    }

    /// A slice into the actual data.
    /// An error frame can always access the full 8-byte data payload.
    fn data(&self) -> (r: &[u8]) {
        self.0.data.as_slice()
    }
}

impl Frame for CanErrorFrame {
    open spec fn spec_id_word(&self) -> canid_t {
        self.spec_inner().can_id
    }

    /// Setting an identifier does nothing on an error frame.
    open spec fn spec_with_id(&self, id: Id) -> CanErrorFrame {
        *self
    }

    fn from_raw_id(id: u32, data: &[u8]) -> (r: Option<CanErrorFrame>)
        ensures
            (id <= CAN_EFF_MASK && data@.len() <= 8) <==> r is Some,
            r matches Some(f) ==> f.wf(),
    {
        match id_from_raw(id) {
            Some(i) => embedded::Frame::new(i, data),
            None => None,
        }
    }

    fn remote_from_raw_id(id: u32, dlc: usize) -> (r: Option<CanErrorFrame>)
        ensures
            r is None,
    {
        None
    }

    /// Get the composite SocketCAN ID word, with EFF/RTR/ERR flags.
    fn id_word(&self) -> (r: canid_t) {
        self.0.can_id
    }

    fn raw_id(&self) -> (r: canid_t) {
        self.0.can_id & CAN_SFF_MASK
    }

    fn len(&self) -> (r: usize) {
        self.0.can_dlc as usize
    }

    /// Sets the CAN ID for the frame.
    /// This does nothing on an error frame.
    fn set_id(&mut self, id: Id) {
    }
}

} // verus!
