use socketcan_core::frame::{id_from_raw, id_is_extended, id_to_canid_t, CAN_EFF_FLAG};
use socketcan_core::id::{ExtendedId, Id, StandardId};

#[test]
fn standard_id_range() {
    assert!(StandardId::new(0).is_some());
    assert!(StandardId::new(0x7FF).is_some());
    assert!(StandardId::new(0x800).is_none());
    assert!(StandardId::new(u16::MAX).is_none());
    assert_eq!(StandardId::new(0x123).unwrap().as_raw(), 0x123);
}

#[test]
fn extended_id_range() {
    assert!(ExtendedId::new(0).is_some());
    assert!(ExtendedId::new(0x1FFF_FFFF).is_some());
    assert!(ExtendedId::new(0x2000_0000).is_none());
    assert!(ExtendedId::new(u32::MAX).is_none());
    assert_eq!(ExtendedId::new(0x1234_5678).unwrap().as_raw(), 0x1234_5678);
}

#[test]
fn extended_id_base_part() {
    let max = ExtendedId::new(0x1FFF_FFFF).unwrap();
    assert_eq!(max.standard_id().as_raw(), 0x7FF);
    let mid = ExtendedId::new(0x100 << 18).unwrap();
    assert_eq!(mid.standard_id().as_raw(), 0x100);
    let low = ExtendedId::new(0x3_FFFF).unwrap();
    assert_eq!(low.standard_id().as_raw(), 0);
}

#[test]
fn id_from_raw_classifies() {
    // Values up to 0x7FF become standard identifiers with the same raw
    // value.
    for raw in [0u32, 1, 0x123, 0x7FF] {
        match id_from_raw(raw) {
            Some(Id::Standard(s)) => assert_eq!(u32::from(s.as_raw()), raw),
            _ => panic!("expected a standard identifier for {raw:#x}"),
        }
    }
    // Larger values up to 29 bits become extended identifiers.
    for raw in [0x800u32, 0x1FFFF, 0x1FFF_FFFF] {
        match id_from_raw(raw) {
            Some(Id::Extended(e)) => assert_eq!(e.as_raw(), raw),
            _ => panic!("expected an extended identifier for {raw:#x}"),
        }
    }
    // Beyond 29 bits there is no identifier.
    assert!(id_from_raw(0x2000_0000).is_none());
    assert!(id_from_raw(u32::MAX).is_none());
}

#[test]
fn id_round_trips_through_canid_t() {
    for raw in [0u32, 0x7FF, 0x800, 0x123, 0x1FFF_FFFF] {
        let id = id_from_raw(raw).unwrap();
        let word = id_to_canid_t(id);
        let mask = if raw <= 0x7FF { 0x7FF } else { 0x1FFF_FFFF };
        assert_eq!(word & mask, raw);
    }
}

#[test]
fn canid_t_sets_eff_flag_for_extended() {
    let id = id_from_raw(0x1FF_FFFF).unwrap();
    assert!(matches!(id, Id::Extended(e) if e.as_raw() == 0x1FF_FFFF));
    assert_eq!(id_to_canid_t(id), 0x1FF_FFFF | CAN_EFF_FLAG);

    let std_id = id_from_raw(0x123).unwrap();
    assert!(matches!(std_id, Id::Standard(s) if s.as_raw() == 0x123));
    assert_eq!(id_to_canid_t(std_id), 0x123);
}

#[test]
fn id_is_extended_matches_variant() {
    let s = Id::Standard(StandardId::new(7).unwrap());
    let e = Id::Extended(ExtendedId::new(7).unwrap());
    assert!(!id_is_extended(&s));
    assert!(id_is_extended(&e));
}

#[test]
fn ordering_standard_wins_base_tie() {
    // Equal top-11-bit base: the standard identifier outranks the
    // extended one, because the extra IDE bit loses arbitration.
    let s = Id::Standard(StandardId::new(0x100).unwrap());
    let e = Id::Extended(ExtendedId::new(0x100 << 18).unwrap());
    assert!(s < e);
    assert!(e > s);
}

#[test]
fn ordering_base_id_dominates() {
    // A lower base ID wins regardless of the variant.
    let e = Id::Extended(ExtendedId::new(0x0FF << 18 | 0x3_FFFF).unwrap());
    let s = Id::Standard(StandardId::new(0x100).unwrap());
    assert!(e < s);

    let s_low = Id::Standard(StandardId::new(0x0FF).unwrap());
    let e_high = Id::Extended(ExtendedId::new(0x100 << 18).unwrap());
    assert!(s_low < e_high);
}

#[test]
fn ordering_extended_tail_breaks_ties() {
    // Two extended identifiers sharing a base order by their low 18 bits.
    let a = Id::Extended(ExtendedId::new((0x42 << 18) | 5).unwrap());
    let b = Id::Extended(ExtendedId::new((0x42 << 18) | 6).unwrap());
    assert!(a < b);
    assert!(b > a);
}

#[test]
fn ordering_is_consistent_with_equality() {
    let a = Id::Extended(ExtendedId::new(0x1234_5678 & 0x1FFF_FFFF).unwrap());
    let b = Id::Extended(ExtendedId::new(0x1234_5678 & 0x1FFF_FFFF).unwrap());
    assert_eq!(a, b);
    assert_eq!(a.partial_cmp(&b), Some(core::cmp::Ordering::Equal));
    assert!(a <= b && a >= b);
}

#[test]
fn ordering_sorts_by_priority() {
    // Sorting by the arbitration order ranks frames exactly as the bus
    // would grant them access.
    let mut ids = vec![
        Id::Extended(ExtendedId::new((0x100 << 18) | 1).unwrap()),
        Id::Standard(StandardId::new(0x200).unwrap()),
        Id::Extended(ExtendedId::new(0x100 << 18).unwrap()),
        Id::Standard(StandardId::new(0x100).unwrap()),
    ];
    ids.sort_by(|a, b| a.partial_cmp(b).unwrap());
    assert_eq!(
        ids,
        vec![
            Id::Standard(StandardId::new(0x100).unwrap()),
            Id::Extended(ExtendedId::new(0x100 << 18).unwrap()),
            Id::Extended(ExtendedId::new((0x100 << 18) | 1).unwrap()),
            Id::Standard(StandardId::new(0x200).unwrap()),
        ]
    );
}

#[test]
fn id_from_wraps_variants() {
    let s = StandardId::new(0x44).unwrap();
    let e = ExtendedId::new(0x4_4444).unwrap();
    assert_eq!(Id::from(s), Id::Standard(s));
    assert_eq!(Id::from(e), Id::Extended(e));
}

#[test]
fn new_unchecked_matches_new() {
    assert_eq!(StandardId::new_unchecked(0x7FF), StandardId::new(0x7FF).unwrap());
    assert_eq!(
        ExtendedId::new_unchecked(0x1FFF_FFFF),
        ExtendedId::new(0x1FFF_FFFF).unwrap()
    );
}
