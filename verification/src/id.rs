//! CAN identifiers.
//!
//! A CAN identifier is either standard (11 bits) or extended (29 bits).
//! Identifiers order by real bus arbitration priority: lower values win,
//! and at equal base ID a standard identifier outranks an extended one.

use vstd::prelude::*;

use core::cmp::Ordering;

verus! {

/// Standard 11-bit CAN identifier (`0..=0x7FF`).
#[derive(Debug, Copy, Clone, PartialEq, Eq, Structural, Hash, PartialOrd, Ord)]
pub struct StandardId(u16);

impl View for StandardId {
    type V = u16;

    closed spec fn view(&self) -> u16 {
        self.0
    }
}

impl StandardId {
    /// A standard identifier is valid when it fits in 11 bits.
    pub open spec fn wf(self) -> bool {
        self@ <= 0x7FF
    }

    /// The standard identifier holding `raw`, at the specification level.
    pub closed spec fn spec_new(raw: u16) -> StandardId {
        StandardId(raw)
    }

    pub proof fn lemma_spec_new(raw: u16)
        ensures
            StandardId::spec_new(raw)@ == raw,
    {
    }

    /// Two standard identifiers with the same raw value are the same value.
    pub proof fn lemma_view_determines(a: StandardId, b: StandardId)
        requires
            a@ == b@,
        ensures
            a == b,
    {
    }

    /// Tries to create a `StandardId` from a raw 16-bit integer.
    ///
    /// Returns `None` if `raw` is out of range of an 11-bit integer (`> 0x7FF`).
    #[must_use]
    pub fn new(raw: u16) -> (r: Option<StandardId>)
        ensures
            raw <= 0x7FF <==> r is Some,
            r matches Some(id) ==> id@ == raw && id.wf(),
            r == (if raw <= 0x7FF {
                Some(StandardId::spec_new(raw))
            } else {
                None::<StandardId>
            }),
    {
        if raw <= 0x7FF {
            Some(StandardId(raw))
        } else {
            None
        }
    }

    /// Creates a `StandardId` from a raw value that the caller has already
    /// validated to be in range.
    #[must_use]
    pub fn new_unchecked(raw: u16) -> (r: StandardId)
        requires
            raw <= 0x7FF,
        ensures
            r@ == raw,
            r.wf(),
            r == StandardId::spec_new(raw),
    {
        StandardId(raw)
    }

    /// Returns this CAN identifier as a raw 16-bit integer.
    #[must_use]
    pub fn as_raw(&self) -> (r: u16)
        ensures
            r == self@,
    {
        self.0
    }
}

/// Extended 29-bit CAN identifier (`0..=0x1FFF_FFFF`).
#[derive(Debug, Copy, Clone, PartialEq, Eq, Structural, Hash, PartialOrd, Ord)]
pub struct ExtendedId(u32);

impl View for ExtendedId {
    type V = u32;

    closed spec fn view(&self) -> u32 {
        self.0
    }
}

impl ExtendedId {
    /// An extended identifier is valid when it fits in 29 bits.
    pub open spec fn wf(self) -> bool {
        self@ <= 0x1FFF_FFFF
    }

    /// The extended identifier holding `raw`, at the specification level.
    pub closed spec fn spec_new(raw: u32) -> ExtendedId {
        ExtendedId(raw)
    }

    pub proof fn lemma_spec_new(raw: u32)
        ensures
            ExtendedId::spec_new(raw)@ == raw,
    {
    }

    /// Two extended identifiers with the same raw value are the same value.
    pub proof fn lemma_view_determines(a: ExtendedId, b: ExtendedId)
        requires
            a@ == b@,
        ensures
            a == b,
    {
    }

    /// Tries to create an `ExtendedId` from a raw 32-bit integer.
    ///
    /// Returns `None` if `raw` is out of range of a 29-bit integer
    /// (`> 0x1FFF_FFFF`).
    #[must_use]
    pub fn new(raw: u32) -> (r: Option<ExtendedId>)
        ensures
            raw <= 0x1FFF_FFFF <==> r is Some,
            r matches Some(id) ==> id@ == raw && id.wf(),
            r == (if raw <= 0x1FFF_FFFF {
                Some(ExtendedId::spec_new(raw))
            } else {
                None::<ExtendedId>
            }),
    {
        if raw <= 0x1FFF_FFFF {
            Some(ExtendedId(raw))
        } else {
            None
        }
    }

    /// Creates an `ExtendedId` from a raw value that the caller has already
    /// validated to be in range.
    #[must_use]
    pub fn new_unchecked(raw: u32) -> (r: ExtendedId)
        requires
            raw <= 0x1FFF_FFFF,
        ensures
            r@ == raw,
            r.wf(),
            r == ExtendedId::spec_new(raw),
    {
        ExtendedId(raw)
    }

    /// Returns this CAN identifier as a raw 32-bit integer.
    #[must_use]
    pub fn as_raw(&self) -> (r: u32)
        ensures
            r == self@,
    {
        self.0
    }

    /// Returns the base ID part of this extended identifier: its top 11 bits
    /// (bits 28..=18).
    #[must_use]
    pub fn standard_id(&self) -> (r: StandardId)
        ensures
            r@ == (self@ >> 18) as u16,
            self.wf() ==> r.wf(),
    {
        proof {
            let raw = self.0;
            assert(raw <= 0x1FFF_FFFF ==> (raw >> 18) <= 0x7FF) by (bit_vector);
            assert((raw >> 18) as u16 == raw >> 18) by (bit_vector);
        }
        StandardId((self.0 >> 18) as u16)
    }
}

/// A CAN identifier (standard or extended).
#[derive(Debug, Copy, Clone, PartialEq, Eq, Structural, Hash)]
pub enum Id {
    /// Standard 11-bit identifier (`0..=0x7FF`).
    Standard(StandardId),
    /// Extended 29-bit identifier (`0..=0x1FFF_FFFF`).
    Extended(ExtendedId),
}

impl Id {
    /// An identifier is valid when its raw value is in range for its
    /// variant.
    pub open spec fn wf(self) -> bool {
        match self {
            Id::Standard(s) => s.wf(),
            Id::Extended(e) => e.wf(),
        }
    }
}

/// The top-11-bit base ID used for the first level of arbitration: a
/// standard identifier's own value, or the top 11 bits (bits 28..=18) of an
/// extended identifier.
pub open spec fn spec_base_id(id: Id) -> u16 {
    match id {
        Id::Standard(s) => s@,
        Id::Extended(e) => (e@ >> 18) as u16,
    }
}

/// The IDE (identifier-extension) bit: 0 for standard, 1 for extended. At
/// equal base ID the extra bit loses arbitration, so standard outranks
/// extended.
pub open spec fn spec_ide_bit(id: Id) -> u32 {
    match id {
        Id::Standard(_) => 0,
        Id::Extended(_) => 1,
    }
}

/// The low 18 bits (bits 17..=0) of an extended identifier, used to break
/// ties between two extended identifiers with equal base ID.
pub open spec fn spec_ext_tail(id: Id) -> u32 {
    match id {
        Id::Standard(_) => 0,
        Id::Extended(e) => e@ & 0x3FFFF,
    }
}

/// Arbitration ordering between two identifiers: compare base IDs first,
/// then the IDE bit, then the low 18 bits of an extended identifier.
/// Lower sorts first, and a lower-sorting identifier wins bus arbitration.
pub open spec fn spec_id_cmp(a: Id, b: Id) -> Ordering {
    if spec_base_id(a) < spec_base_id(b) {
        Ordering::Less
    } else if spec_base_id(a) > spec_base_id(b) {
        Ordering::Greater
    } else if spec_ide_bit(a) < spec_ide_bit(b) {
        Ordering::Less
    } else if spec_ide_bit(a) > spec_ide_bit(b) {
        Ordering::Greater
    } else if spec_ext_tail(a) < spec_ext_tail(b) {
        Ordering::Less
    } else if spec_ext_tail(a) > spec_ext_tail(b) {
        Ordering::Greater
    } else {
        Ordering::Equal
    }
}

fn id_split(id: &Id) -> (r: (u16, u32, u32))
    ensures
        r.0 == spec_base_id(*id),
        r.1 == spec_ide_bit(*id),
        r.2 == spec_ext_tail(*id),
{
    match id {
        Id::Standard(s) => (s.as_raw(), 0u32, 0u32),
        Id::Extended(e) => (e.standard_id().as_raw(), 1u32, e.as_raw() & 0x3FFFF),
    }
}

impl PartialOrd for Id {
    /// Compares two identifiers by bus arbitration priority.
    fn partial_cmp(&self, other: &Id) -> (r: Option<Ordering>) {
        let a = id_split(self);
        let b = id_split(other);
        let ord = if a.0 < b.0 {
            Ordering::Less
        } else if a.0 > b.0 {
            Ordering::Greater
        } else if a.1 < b.1 {
            Ordering::Less
        } else if a.1 > b.1 {
            Ordering::Greater
        } else if a.2 < b.2 {
            Ordering::Less
        } else if a.2 > b.2 {
            Ordering::Greater
        } else {
            Ordering::Equal
        };
        Some(ord)
    }
}

impl vstd::std_specs::cmp::PartialOrdSpecImpl for Id {
    open spec fn obeys_partial_cmp_spec() -> bool {
        true
    }

    open spec fn partial_cmp_spec(&self, other: &Id) -> Option<Ordering> {
        Some(spec_id_cmp(*self, *other))
    }
}

/// The arbitration comparison is reflexive and, on valid identifiers, its
/// `Equal` outcome coincides with equality of the identifiers themselves.
pub proof fn lemma_id_cmp_eq(a: Id, b: Id)
    requires
        a.wf(),
        b.wf(),
    ensures
        spec_id_cmp(a, b) == Ordering::Equal <==> a == b,
{
    match (a, b) {
        (Id::Standard(x), Id::Standard(y)) => {
            if spec_id_cmp(a, b) == Ordering::Equal {
                StandardId::lemma_view_determines(x, y);
            }
        },
        (Id::Extended(x), Id::Extended(y)) => {
            if spec_id_cmp(a, b) == Ordering::Equal {
                let xr = x@;
                let yr = y@;
                assert(xr <= 0x1FFF_FFFF && yr <= 0x1FFF_FFFF && ((xr >> 18) as u16) == ((yr
                    >> 18) as u16) && (xr & 0x3FFFF) == (yr & 0x3FFFF) ==> xr == yr)
                    by (bit_vector);
                ExtendedId::lemma_view_determines(x, y);
            }
        },
        _ => {},
    }
}

/// The arbitration comparison is antisymmetric: reversing the operands
/// reverses the outcome.
pub proof fn lemma_id_cmp_antisymm(a: Id, b: Id)
    ensures
        spec_id_cmp(a, b) == Ordering::Less <==> spec_id_cmp(b, a) == Ordering::Greater,
        spec_id_cmp(a, b) == Ordering::Equal <==> spec_id_cmp(b, a) == Ordering::Equal,
{
}

/// The arbitration comparison is transitive, so it is a total order on
/// identifiers.
pub proof fn lemma_id_cmp_trans(a: Id, b: Id, c: Id)
    requires
        spec_id_cmp(a, b) != Ordering::Greater,
        spec_id_cmp(b, c) != Ordering::Greater,
    ensures
        spec_id_cmp(a, c) != Ordering::Greater,
        spec_id_cmp(a, b) == Ordering::Less || spec_id_cmp(b, c) == Ordering::Less ==> spec_id_cmp(
            a,
            c,
        ) == Ordering::Less,
{
}

/// At equal base ID a standard identifier sorts before an extended one:
/// the extra IDE bit loses arbitration.
pub proof fn lemma_standard_outranks_extended(s: StandardId, e: ExtendedId)
    requires
        spec_base_id(Id::Standard(s)) == spec_base_id(Id::Extended(e)),
    ensures
        spec_id_cmp(Id::Standard(s), Id::Extended(e)) == Ordering::Less,
{
}

/// Between two extended identifiers sharing a base ID, the one with the
/// smaller low-18-bit remainder sorts first.
pub proof fn lemma_extended_tail_orders(a: ExtendedId, b: ExtendedId)
    requires
        spec_base_id(Id::Extended(a)) == spec_base_id(Id::Extended(b)),
        spec_ext_tail(Id::Extended(a)) < spec_ext_tail(Id::Extended(b)),
    ensures
        spec_id_cmp(Id::Extended(a), Id::Extended(b)) == Ordering::Less,
{
}

impl From<StandardId> for Id {
    /// Wraps a standard identifier.
    fn from(id: StandardId) -> (r: Id) {
        Id::Standard(id)
    }
}

impl vstd::std_specs::convert::FromSpecImpl<StandardId> for Id {
    open spec fn obeys_from_spec() -> bool {
        true
    }

    open spec fn from_spec(id: StandardId) -> Id {
        Id::Standard(id)
    }
}

impl From<ExtendedId> for Id {
    /// Wraps an extended identifier.
    fn from(id: ExtendedId) -> (r: Id) {
        Id::Extended(id)
    }
}

impl vstd::std_specs::convert::FromSpecImpl<ExtendedId> for Id {
    open spec fn obeys_from_spec() -> bool {
        true
    }

    open spec fn from_spec(id: ExtendedId) -> Id {
        Id::Extended(id)
    }
}

} // verus!
