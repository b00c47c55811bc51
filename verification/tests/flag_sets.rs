//! The bit-flag set types: unions convert to the bitwise OR of the foreign
//! bits, containment matches, and bits outside a family's mask read back as
//! absent.

use rgtk::flags::{StateFlags, AccelFlags, AttachOptions, JunctionSides, RegionFlags, InputHints, CalendarDisplayOptions, StateFlagsSet, AccelFlagsSet, AttachOptionsSet, JunctionSidesSet, RegionFlagsSet, InputHintsSet, CalendarDisplayOptionsSet};

#[test]
fn union_state_flags() {
    let a = StateFlagsSet::from_flag(StateFlags::Active);
    let b = StateFlagsSet::from_flag(StateFlags::Focused);
    let u = a.union(b);
    assert_eq!(u.bits(), 33);
    assert!(u.contains(StateFlags::Active));
    assert!(u.contains(StateFlags::Focused));
    assert!(!u.contains(StateFlags::Selected));
    assert_eq!(StateFlagsSet::from_bits(u.bits()), Some(u));
    assert_eq!(StateFlagsSet::from_bits(512), None);
    let i = a.intersect(u);
    assert_eq!(i.bits(), 1);
    assert_eq!(StateFlagsSet::empty().bits(), 0);
}

#[test]
fn union_accel_flags() {
    let a = AccelFlagsSet::from_flag(AccelFlags::Visible);
    let b = AccelFlagsSet::from_flag(AccelFlags::Locked);
    let u = a.union(b);
    assert_eq!(u.bits(), 3);
    assert!(u.contains(AccelFlags::Visible));
    assert!(u.contains(AccelFlags::Locked));
    assert!(!u.contains(AccelFlags::Mask));
    assert_eq!(AccelFlagsSet::from_bits(u.bits()), Some(u));
    assert_eq!(AccelFlagsSet::from_bits(8), None);
    let i = a.intersect(u);
    assert_eq!(i.bits(), 1);
    assert_eq!(AccelFlagsSet::empty().bits(), 0);
}

#[test]
fn union_attach_options() {
    let a = AttachOptionsSet::from_flag(AttachOptions::Expand);
    let b = AttachOptionsSet::from_flag(AttachOptions::Fill);
    let u = a.union(b);
    assert_eq!(u.bits(), 5);
    assert!(u.contains(AttachOptions::Expand));
    assert!(u.contains(AttachOptions::Fill));
    assert!(!u.contains(AttachOptions::Shrink));
    assert_eq!(AttachOptionsSet::from_bits(u.bits()), Some(u));
    assert_eq!(AttachOptionsSet::from_bits(9), None);
    let i = a.intersect(u);
    assert_eq!(i.bits(), 1);
    assert_eq!(AttachOptionsSet::empty().bits(), 0);
}

#[test]
fn union_junction_sides() {
    let a = JunctionSidesSet::from_flag(JunctionSides::CornerTopleft);
    let b = JunctionSidesSet::from_flag(JunctionSides::CornerTopRight);
    let u = a.union(b);
    assert_eq!(u.bits(), 3);
    assert!(u.contains(JunctionSides::Top));
    assert!(u.contains(JunctionSides::CornerTopleft));
    assert!(u.contains(JunctionSides::CornerTopRight));
    assert!(!u.contains(JunctionSides::CornerBottomLeft));
    assert_eq!(JunctionSidesSet::from_bits(u.bits()), Some(u));
    assert_eq!(JunctionSidesSet::from_bits(16), None);
    let i = a.intersect(u);
    assert_eq!(i.bits(), 1);
    assert_eq!(JunctionSidesSet::empty().bits(), 0);
}

#[test]
fn union_region_flags() {
    let a = RegionFlagsSet::from_flag(RegionFlags::Even);
    let b = RegionFlagsSet::from_flag(RegionFlags::Sorted);
    let u = a.union(b);
    assert_eq!(u.bits(), 33);
    assert!(u.contains(RegionFlags::Even));
    assert!(u.contains(RegionFlags::Sorted));
    assert!(!u.contains(RegionFlags::First));
    assert_eq!(RegionFlagsSet::from_bits(u.bits()), Some(u));
    assert_eq!(RegionFlagsSet::from_bits(64), None);
    let i = a.intersect(u);
    assert_eq!(i.bits(), 1);
    assert_eq!(RegionFlagsSet::empty().bits(), 0);
}

#[test]
fn union_input_hints() {
    let a = InputHintsSet::from_flag(InputHints::Spellcheck);
    let b = InputHintsSet::from_flag(InputHints::Lowercase);
    let u = a.union(b);
    assert_eq!(u.bits(), 9);
    assert!(u.contains(InputHints::Spellcheck));
    assert!(u.contains(InputHints::Lowercase));
    assert!(!u.contains(InputHints::WordCompletion));
    assert_eq!(InputHintsSet::from_bits(u.bits()), Some(u));
    assert_eq!(InputHintsSet::from_bits(256), None);
    let i = a.intersect(u);
    assert_eq!(i.bits(), 1);
    assert_eq!(InputHintsSet::empty().bits(), 0);
}

#[test]
fn union_calendar_display_options() {
    let a = CalendarDisplayOptionsSet::from_flag(CalendarDisplayOptions::ShowHeading);
    let b = CalendarDisplayOptionsSet::from_flag(CalendarDisplayOptions::ShowDetails);
    let u = a.union(b);
    assert_eq!(u.bits(), 33);
    assert!(u.contains(CalendarDisplayOptions::ShowHeading));
    assert!(u.contains(CalendarDisplayOptions::ShowDetails));
    assert!(!u.contains(CalendarDisplayOptions::NoMonthChange));
    assert_eq!(CalendarDisplayOptionsSet::from_bits(u.bits()), Some(u));
    assert_eq!(CalendarDisplayOptionsSet::from_bits(16), None);
    let i = a.intersect(u);
    assert_eq!(i.bits(), 1);
    assert_eq!(CalendarDisplayOptionsSet::empty().bits(), 0);
}

