//! The toolkit's bit-flag enumerations: each tag maps to a foreign bit
//! pattern, and a dedicated set type carries unions of them.

use vstd::prelude::*;

verus! {

/// Bits cleared by a mask stay cleared after clearing: the empty pattern lies
/// inside every mask.
proof fn lemma_zero_in_mask(m: u32)
    ensures
        0u32 & !m == 0,
{
    assert(0u32 & !m == 0) by (bit_vector);
}

/// The OR of two patterns inside a mask lies inside the mask.
proof fn lemma_or_in_mask(a: u32, b: u32, m: u32)
    requires
        a & !m == 0,
        b & !m == 0,
    ensures
        (a | b) & !m == 0,
{
    assert((a | b) & !m == 0) by (bit_vector)
        requires
            a & !m == 0 && b & !m == 0,
    ;
}

/// The AND of a pattern inside a mask with anything lies inside the mask.
proof fn lemma_and_in_mask(a: u32, b: u32, m: u32)
    requires
        a & !m == 0,
    ensures
        (a & b) & !m == 0,
{
    assert((a & b) & !m == 0) by (bit_vector)
        requires
            a & !m == 0,
    ;
}

/// A pattern wholly present in either operand is wholly present in the OR.
proof fn lemma_or_contains(a: u32, b: u32, x: u32)
    requires
        a & x == x || b & x == x,
    ensures
        (a | b) & x == x,
{
    assert((a | b) & x == x) by (bit_vector)
        requires
            a & x == x || b & x == x,
    ;
}

/// Widget states used to match against style pseudo-classes.
#[derive(Clone, Copy, PartialEq, Eq, Structural, Debug)]
pub enum StateFlags {
    Normal,
    Active,
    Prelight,
    Selected,
    Insensitive,
    Inconsistent,
    Focused,
    BackDrop,
    DirLTR,
    DirRTL,
}

impl StateFlags {
    /// The foreign integer constant this tag stands for.
    pub open spec fn to_raw_spec(self) -> u32 {
        match self {
            StateFlags::Normal => 0u32,
            StateFlags::Active => 1u32,
            StateFlags::Prelight => 2u32,
            StateFlags::Selected => 4u32,
            StateFlags::Insensitive => 8u32,
            StateFlags::Inconsistent => 16u32,
            StateFlags::Focused => 32u32,
            StateFlags::BackDrop => 64u32,
            StateFlags::DirLTR => 128u32,
            StateFlags::DirRTL => 256u32,
        }
    }

    /// The tag a foreign integer stands for, if any.
    pub open spec fn from_raw_spec(raw: u32) -> Option<StateFlags> {
        if raw == 0u32 {
            Some(StateFlags::Normal)
        } else if raw == 1u32 {
            Some(StateFlags::Active)
        } else if raw == 2u32 {
            Some(StateFlags::Prelight)
        } else if raw == 4u32 {
            Some(StateFlags::Selected)
        } else if raw == 8u32 {
            Some(StateFlags::Insensitive)
        } else if raw == 16u32 {
            Some(StateFlags::Inconsistent)
        } else if raw == 32u32 {
            Some(StateFlags::Focused)
        } else if raw == 64u32 {
            Some(StateFlags::BackDrop)
        } else if raw == 128u32 {
            Some(StateFlags::DirLTR)
        } else if raw == 256u32 {
            Some(StateFlags::DirRTL)
        } else {
            None
        }
    }

    pub fn to_raw(self) -> (r: u32)
        ensures
            r == self.to_raw_spec(),
    {
        match self {
            StateFlags::Normal => 0u32,
            StateFlags::Active => 1u32,
            StateFlags::Prelight => 2u32,
            StateFlags::Selected => 4u32,
            StateFlags::Insensitive => 8u32,
            StateFlags::Inconsistent => 16u32,
            StateFlags::Focused => 32u32,
            StateFlags::BackDrop => 64u32,
            StateFlags::DirLTR => 128u32,
            StateFlags::DirRTL => 256u32,
        }
    }

    pub fn from_raw(raw: u32) -> (r: Option<StateFlags>)
        ensures
            r == Self::from_raw_spec(raw),
    {
        if raw == 0u32 {
            Some(StateFlags::Normal)
        } else if raw == 1u32 {
            Some(StateFlags::Active)
        } else if raw == 2u32 {
            Some(StateFlags::Prelight)
        } else if raw == 4u32 {
            Some(StateFlags::Selected)
        } else if raw == 8u32 {
            Some(StateFlags::Insensitive)
        } else if raw == 16u32 {
            Some(StateFlags::Inconsistent)
        } else if raw == 32u32 {
            Some(StateFlags::Focused)
        } else if raw == 64u32 {
            Some(StateFlags::BackDrop)
        } else if raw == 128u32 {
            Some(StateFlags::DirLTR)
        } else if raw == 256u32 {
            Some(StateFlags::DirRTL)
        } else {
            None
        }
    }

    /// Round-trip law: converting a tag to its foreign integer and back
    /// yields the original tag.
    pub proof fn lemma_round_trip(self)
        ensures
            Self::from_raw_spec(self.to_raw_spec()) == Some(self),
    {
    }

    /// Reverse round-trip law: a foreign integer that reads back as a tag is
    /// exactly that tag's foreign integer.
    pub proof fn lemma_raw_round_trip(raw: u32)
        ensures
            Self::from_raw_spec(raw) matches Some(t) ==> t.to_raw_spec() == raw,
    {
    }
}

/// How an accelerator is displayed and whether it can be removed.
#[derive(Clone, Copy, PartialEq, Eq, Structural, Debug)]
pub enum AccelFlags {
    Visible,
    Locked,
    Mask,
}

impl AccelFlags {
    /// The foreign integer constant this tag stands for.
    pub open spec fn to_raw_spec(self) -> u32 {
        match self {
            AccelFlags::Visible => 1u32,
            AccelFlags::Locked => 2u32,
            AccelFlags::Mask => 7u32,
        }
    }

    /// The tag a foreign integer stands for, if any.
    pub open spec fn from_raw_spec(raw: u32) -> Option<AccelFlags> {
        if raw == 1u32 {
            Some(AccelFlags::Visible)
        } else if raw == 2u32 {
            Some(AccelFlags::Locked)
        } else if raw == 7u32 {
            Some(AccelFlags::Mask)
        } else {
            None
        }
    }

    pub fn to_raw(self) -> (r: u32)
        ensures
            r == self.to_raw_spec(),
    {
        match self {
            AccelFlags::Visible => 1u32,
            AccelFlags::Locked => 2u32,
            AccelFlags::Mask => 7u32,
        }
    }

    pub fn from_raw(raw: u32) -> (r: Option<AccelFlags>)
        ensures
            r == Self::from_raw_spec(raw),
    {
        if raw == 1u32 {
            Some(AccelFlags::Visible)
        } else if raw == 2u32 {
            Some(AccelFlags::Locked)
        } else if raw == 7u32 {
            Some(AccelFlags::Mask)
        } else {
            None
        }
    }

    /// Round-trip law: converting a tag to its foreign integer and back
    /// yields the original tag.
    pub proof fn lemma_round_trip(self)
        ensures
            Self::from_raw_spec(self.to_raw_spec()) == Some(self),
    {
    }

    /// Reverse round-trip law: a foreign integer that reads back as a tag is
    /// exactly that tag's foreign integer.
    pub proof fn lemma_raw_round_trip(raw: u32)
        ensures
            Self::from_raw_spec(raw) matches Some(t) ==> t.to_raw_spec() == raw,
    {
    }
}

/// How a widget expands when its table cell grows.
#[derive(Clone, Copy, PartialEq, Eq, Structural, Debug)]
pub enum AttachOptions {
    Expand,
    Shrink,
    Fill,
}

impl AttachOptions {
    /// The foreign integer constant this tag stands for.
    pub open spec fn to_raw_spec(self) -> u32 {
        match self {
            AttachOptions::Expand => 1u32,
            AttachOptions::Shrink => 2u32,
            AttachOptions::Fill => 4u32,
        }
    }

    /// The tag a foreign integer stands for, if any.
    pub open spec fn from_raw_spec(raw: u32) -> Option<AttachOptions> {
        if raw == 1u32 {
            Some(AttachOptions::Expand)
        } else if raw == 2u32 {
            Some(AttachOptions::Shrink)
        } else if raw == 4u32 {
            Some(AttachOptions::Fill)
        } else {
            None
        }
    }

    pub fn to_raw(self) -> (r: u32)
        ensures
            r == self.to_raw_spec(),
    {
        match self {
            AttachOptions::Expand => 1u32,
            AttachOptions::Shrink => 2u32,
            AttachOptions::Fill => 4u32,
        }
    }

    pub fn from_raw(raw: u32) -> (r: Option<AttachOptions>)
        ensures
            r == Self::from_raw_spec(raw),
    {
        if raw == 1u32 {
            Some(AttachOptions::Expand)
        } else if raw == 2u32 {
            Some(AttachOptions::Shrink)
        } else if raw == 4u32 {
            Some(AttachOptions::Fill)
        } else {
            None
        }
    }

    /// Round-trip law: converting a tag to its foreign integer and back
    /// yields the original tag.
    pub proof fn lemma_round_trip(self)
        ensures
            Self::from_raw_spec(self.to_raw_spec()) == Some(self),
    {
    }

    /// Reverse round-trip law: a foreign integer that reads back as a tag is
    /// exactly that tag's foreign integer.
    pub proof fn lemma_raw_round_trip(raw: u32)
        ensures
            Self::from_raw_spec(raw) matches Some(t) ==> t.to_raw_spec() == raw,
    {
    }
}

/// The sides on which a rendered element connects to its neighbours.
#[derive(Clone, Copy, PartialEq, Eq, Structural, Debug)]
pub enum JunctionSides {
    NoJunctions,
    CornerTopleft,
    CornerTopRight,
    CornerBottomLeft,
    CornerBottomRight,
    Top,
    Bottom,
    Left,
    Right,
}

impl JunctionSides {
    /// The foreign integer constant this tag stands for.
    pub open spec fn to_raw_spec(self) -> u32 {
        match self {
            JunctionSides::NoJunctions => 0u32,
            JunctionSides::CornerTopleft => 1u32,
            JunctionSides::CornerTopRight => 2u32,
            JunctionSides::CornerBottomLeft => 4u32,
            JunctionSides::CornerBottomRight => 8u32,
            JunctionSides::Top => 3u32,
            JunctionSides::Bottom => 12u32,
            JunctionSides::Left => 5u32,
            JunctionSides::Right => 10u32,
        }
    }

    /// The tag a foreign integer stands for, if any.
    pub open spec fn from_raw_spec(raw: u32) -> Option<JunctionSides> {
        if raw == 0u32 {
            Some(JunctionSides::NoJunctions)
        } else if raw == 1u32 {
            Some(JunctionSides::CornerTopleft)
        } else if raw == 2u32 {
            Some(JunctionSides::CornerTopRight)
        } else if raw == 4u32 {
            Some(JunctionSides::CornerBottomLeft)
        } else if raw == 8u32 {
            Some(JunctionSides::CornerBottomRight)
        } else if raw == 3u32 {
            Some(JunctionSides::Top)
        } else if raw == 12u32 {
            Some(JunctionSides::Bottom)
        } else if raw == 5u32 {
            Some(JunctionSides::Left)
        } else if raw == 10u32 {
            Some(JunctionSides::Right)
        } else {
            None
        }
    }

    pub fn to_raw(self) -> (r: u32)
        ensures
            r == self.to_raw_spec(),
    {
        match self {
            JunctionSides::NoJunctions => 0u32,
            JunctionSides::CornerTopleft => 1u32,
            JunctionSides::CornerTopRight => 2u32,
            JunctionSides::CornerBottomLeft => 4u32,
            JunctionSides::CornerBottomRight => 8u32,
            JunctionSides::Top => 3u32,
            JunctionSides::Bottom => 12u32,
            JunctionSides::Left => 5u32,
            JunctionSides::Right => 10u32,
        }
    }

    pub fn from_raw(raw: u32) -> (r: Option<JunctionSides>)
        ensures
            r == Self::from_raw_spec(raw),
    {
        if raw == 0u32 {
            Some(JunctionSides::NoJunctions)
        } else if raw == 1u32 {
            Some(JunctionSides::CornerTopleft)
        } else if raw == 2u32 {
            Some(JunctionSides::CornerTopRight)
        } else if raw == 4u32 {
            Some(JunctionSides::CornerBottomLeft)
        } else if raw == 8u32 {
            Some(JunctionSides::CornerBottomRight)
        } else if raw == 3u32 {
            Some(JunctionSides::Top)
        } else if raw == 12u32 {
            Some(JunctionSides::Bottom)
        } else if raw == 5u32 {
            Some(JunctionSides::Left)
        } else if raw == 10u32 {
            Some(JunctionSides::Right)
        } else {
            None
        }
    }

    /// Round-trip law: converting a tag to its foreign integer and back
    /// yields the original tag.
    pub proof fn lemma_round_trip(self)
        ensures
            Self::from_raw_spec(self.to_raw_spec()) == Some(self),
    {
    }

    /// Reverse round-trip law: a foreign integer that reads back as a tag is
    /// exactly that tag's foreign integer.
    pub proof fn lemma_raw_round_trip(raw: u32)
        ensures
            Self::from_raw_spec(raw) matches Some(t) ==> t.to_raw_spec() == raw,
    {
    }
}

/// The position of a region within a set of regions.
#[derive(Clone, Copy, PartialEq, Eq, Structural, Debug)]
pub enum RegionFlags {
    Even,
    Odd,
    First,
    Last,
    Only,
    Sorted,
}

impl RegionFlags {
    /// The foreign integer constant this tag stands for.
    pub open spec fn to_raw_spec(self) -> u32 {
        match self {
            RegionFlags::Even => 1u32,
            RegionFlags::Odd => 2u32,
            RegionFlags::First => 4u32,
            RegionFlags::Last => 8u32,
            RegionFlags::Only => 16u32,
            RegionFlags::Sorted => 32u32,
        }
    }

    /// The tag a foreign integer stands for, if any.
    pub open spec fn from_raw_spec(raw: u32) -> Option<RegionFlags> {
        if raw == 1u32 {
            Some(RegionFlags::Even)
        } else if raw == 2u32 {
            Some(RegionFlags::Odd)
        } else if raw == 4u32 {
            Some(RegionFlags::First)
        } else if raw == 8u32 {
            Some(RegionFlags::Last)
        } else if raw == 16u32 {
            Some(RegionFlags::Only)
        } else if raw == 32u32 {
            Some(RegionFlags::Sorted)
        } else {
            None
        }
    }

    pub fn to_raw(self) -> (r: u32)
        ensures
            r == self.to_raw_spec(),
    {
        match self {
            RegionFlags::Even => 1u32,
            RegionFlags::Odd => 2u32,
            RegionFlags::First => 4u32,
            RegionFlags::Last => 8u32,
            RegionFlags::Only => 16u32,
            RegionFlags::Sorted => 32u32,
        }
    }

    pub fn from_raw(raw: u32) -> (r: Option<RegionFlags>)
        ensures
            r == Self::from_raw_spec(raw),
    {
        if raw == 1u32 {
            Some(RegionFlags::Even)
        } else if raw == 2u32 {
            Some(RegionFlags::Odd)
        } else if raw == 4u32 {
            Some(RegionFlags::First)
        } else if raw == 8u32 {
            Some(RegionFlags::Last)
        } else if raw == 16u32 {
            Some(RegionFlags::Only)
        } else if raw == 32u32 {
            Some(RegionFlags::Sorted)
        } else {
            None
        }
    }

    /// Round-trip law: converting a tag to its foreign integer and back
    /// yields the original tag.
    pub proof fn lemma_round_trip(self)
        ensures
            Self::from_raw_spec(self.to_raw_spec()) == Some(self),
    {
    }

    /// Reverse round-trip law: a foreign integer that reads back as a tag is
    /// exactly that tag's foreign integer.
    pub proof fn lemma_raw_round_trip(raw: u32)
        ensures
            Self::from_raw_spec(raw) matches Some(t) ==> t.to_raw_spec() == raw,
    {
    }
}

/// Hints an input method may take into account.
#[derive(Clone, Copy, PartialEq, Eq, Structural, Debug)]
pub enum InputHints {
    NoHints,
    Spellcheck,
    NoSpellcheck,
    WordCompletion,
    Lowercase,
    UppercaseChars,
    UppercaseWords,
    UppercaseSentences,
    InhibitOsk,
}

impl InputHints {
    /// The foreign integer constant this tag stands for.
    pub open spec fn to_raw_spec(self) -> u32 {
        match self {
            InputHints::NoHints => 0u32,
            InputHints::Spellcheck => 1u32,
            InputHints::NoSpellcheck => 2u32,
            InputHints::WordCompletion => 4u32,
            InputHints::Lowercase => 8u32,
            InputHints::UppercaseChars => 16u32,
            InputHints::UppercaseWords => 32u32,
            InputHints::UppercaseSentences => 64u32,
            InputHints::InhibitOsk => 128u32,
        }
    }

    /// The tag a foreign integer stands for, if any.
    pub open spec fn from_raw_spec(raw: u32) -> Option<InputHints> {
        if raw == 0u32 {
            Some(InputHints::NoHints)
        } else if raw == 1u32 {
            Some(InputHints::Spellcheck)
        } else if raw == 2u32 {
            Some(InputHints::NoSpellcheck)
        } else if raw == 4u32 {
            Some(InputHints::WordCompletion)
        } else if raw == 8u32 {
            Some(InputHints::Lowercase)
        } else if raw == 16u32 {
            Some(InputHints::UppercaseChars)
        } else if raw == 32u32 {
            Some(InputHints::UppercaseWords)
        } else if raw == 64u32 {
            Some(InputHints::UppercaseSentences)
        } else if raw == 128u32 {
            Some(InputHints::InhibitOsk)
        } else {
            None
        }
    }

    pub fn to_raw(self) -> (r: u32)
        ensures
            r == self.to_raw_spec(),
    {
        match self {
            InputHints::NoHints => 0u32,
            InputHints::Spellcheck => 1u32,
            InputHints::NoSpellcheck => 2u32,
            InputHints::WordCompletion => 4u32,
            InputHints::Lowercase => 8u32,
            InputHints::UppercaseChars => 16u32,
            InputHints::UppercaseWords => 32u32,
            InputHints::UppercaseSentences => 64u32,
            InputHints::InhibitOsk => 128u32,
        }
    }

    pub fn from_raw(raw: u32) -> (r: Option<InputHints>)
        ensures
            r == Self::from_raw_spec(raw),
    {
        if raw == 0u32 {
            Some(InputHints::NoHints)
        } else if raw == 1u32 {
            Some(InputHints::Spellcheck)
        } else if raw == 2u32 {
            Some(InputHints::NoSpellcheck)
        } else if raw == 4u32 {
            Some(InputHints::WordCompletion)
        } else if raw == 8u32 {
            Some(InputHints::Lowercase)
        } else if raw == 16u32 {
            Some(InputHints::UppercaseChars)
        } else if raw == 32u32 {
            Some(InputHints::UppercaseWords)
        } else if raw == 64u32 {
            Some(InputHints::UppercaseSentences)
        } else if raw == 128u32 {
            Some(InputHints::InhibitOsk)
        } else {
            None
        }
    }

    /// Round-trip law: converting a tag to its foreign integer and back
    /// yields the original tag.
    pub proof fn lemma_round_trip(self)
        ensures
            Self::from_raw_spec(self.to_raw_spec()) == Some(self),
    {
    }

    /// Reverse round-trip law: a foreign integer that reads back as a tag is
    /// exactly that tag's foreign integer.
    pub proof fn lemma_raw_round_trip(raw: u32)
        ensures
            Self::from_raw_spec(raw) matches Some(t) ==> t.to_raw_spec() == raw,
    {
    }
}

/// Options that influence what a calendar displays.
#[derive(Clone, Copy, PartialEq, Eq, Structural, Debug)]
pub enum CalendarDisplayOptions {
    ShowHeading,
    ShowDayNames,
    NoMonthChange,
    ShowWeekNumbers,
    ShowDetails,
}

impl CalendarDisplayOptions {
    /// The foreign integer constant this tag stands for.
    pub open spec fn to_raw_spec(self) -> u32 {
        match self {
            CalendarDisplayOptions::ShowHeading => 1u32,
            CalendarDisplayOptions::ShowDayNames => 2u32,
            CalendarDisplayOptions::NoMonthChange => 4u32,
            CalendarDisplayOptions::ShowWeekNumbers => 8u32,
            CalendarDisplayOptions::ShowDetails => 32u32,
        }
    }

    /// The tag a foreign integer stands for, if any.
    pub open spec fn from_raw_spec(raw: u32) -> Option<CalendarDisplayOptions> {
        if raw == 1u32 {
            Some(CalendarDisplayOptions::ShowHeading)
        } else if raw == 2u32 {
            Some(CalendarDisplayOptions::ShowDayNames)
        } else if raw == 4u32 {
            Some(CalendarDisplayOptions::NoMonthChange)
        } else if raw == 8u32 {
            Some(CalendarDisplayOptions::ShowWeekNumbers)
        } else if raw == 32u32 {
            Some(CalendarDisplayOptions::ShowDetails)
        } else {
            None
        }
    }

    pub fn to_raw(self) -> (r: u32)
        ensures
            r == self.to_raw_spec(),
    {
        match self {
            CalendarDisplayOptions::ShowHeading => 1u32,
            CalendarDisplayOptions::ShowDayNames => 2u32,
            CalendarDisplayOptions::NoMonthChange => 4u32,
            CalendarDisplayOptions::ShowWeekNumbers => 8u32,
            CalendarDisplayOptions::ShowDetails => 32u32,
        }
    }

    pub fn from_raw(raw: u32) -> (r: Option<CalendarDisplayOptions>)
        ensures
            r == Self::from_raw_spec(raw),
    {
        if raw == 1u32 {
            Some(CalendarDisplayOptions::ShowHeading)
        } else if raw == 2u32 {
            Some(CalendarDisplayOptions::ShowDayNames)
        } else if raw == 4u32 {
            Some(CalendarDisplayOptions::NoMonthChange)
        } else if raw == 8u32 {
            Some(CalendarDisplayOptions::ShowWeekNumbers)
        } else if raw == 32u32 {
            Some(CalendarDisplayOptions::ShowDetails)
        } else {
            None
        }
    }

    /// Round-trip law: converting a tag to its foreign integer and back
    /// yields the original tag.
    pub proof fn lemma_round_trip(self)
        ensures
            Self::from_raw_spec(self.to_raw_spec()) == Some(self),
    {
    }

    /// Reverse round-trip law: a foreign integer that reads back as a tag is
    /// exactly that tag's foreign integer.
    pub proof fn lemma_raw_round_trip(raw: u32)
        ensures
            Self::from_raw_spec(raw) matches Some(t) ==> t.to_raw_spec() == raw,
    {
    }
}

/// A set of `StateFlags` values, carried as the bitwise union of their foreign bits.
#[derive(Clone, Copy, PartialEq, Eq, Structural, Debug)]
pub struct StateFlagsSet {
    bits: u32,
}

impl StateFlagsSet {
    /// The foreign bit pattern this set stands for.
    pub closed spec fn spec_bits(self) -> u32 {
        self.bits
    }

    /// Every bit of the set lies inside the family's mask.
    pub open spec fn wf(self) -> bool {
        self.spec_bits() & !0x1ffu32 == 0
    }

    /// Whether every bit of `f` is present in the set.
    pub open spec fn spec_contains(self, f: StateFlags) -> bool {
        self.spec_bits() & f.to_raw_spec() == f.to_raw_spec()
    }

    /// Each single flag's bits lie inside the family's mask.
    pub proof fn lemma_flag_in_mask(f: StateFlags)
        ensures
            f.to_raw_spec() & !0x1ffu32 == 0,
    {
        let b = f.to_raw_spec();
        assert(b & !0x1ffu32 == 0) by (bit_vector)
            requires
                b == 0u32 || b == 1u32 || b == 2u32 || b == 4u32 || b == 8u32 || b == 16u32 || b == 32u32 || b == 64u32 || b == 128u32 || b == 256u32,
        ;
    }

    pub fn empty() -> (r: Self)
        ensures
            r.spec_bits() == 0u32,
            r.wf(),
    {
        proof {
            lemma_zero_in_mask(0x1ffu32);
        }
        StateFlagsSet { bits: 0 }
    }

    pub fn from_flag(f: StateFlags) -> (r: Self)
        ensures
            r.spec_bits() == f.to_raw_spec(),
            r.wf(),
    {
        proof {
            Self::lemma_flag_in_mask(f);
        }
        StateFlagsSet { bits: f.to_raw() }
    }

    /// The union of two sets: the bitwise OR of their foreign bits.
    pub fn union(self, other: Self) -> (r: Self)
        ensures
            r.spec_bits() == self.spec_bits() | other.spec_bits(),
            self.wf() && other.wf() ==> r.wf(),
    {
        proof {
            if self.wf() && other.wf() {
                lemma_or_in_mask(self.bits, other.bits, 0x1ffu32);
            }
        }
        StateFlagsSet { bits: self.bits | other.bits }
    }

    /// The intersection of two sets: the bitwise AND of their foreign bits.
    pub fn intersect(self, other: Self) -> (r: Self)
        ensures
            r.spec_bits() == self.spec_bits() & other.spec_bits(),
            self.wf() ==> r.wf(),
    {
        proof {
            if self.wf() {
                lemma_and_in_mask(self.bits, other.bits, 0x1ffu32);
            }
        }
        StateFlagsSet { bits: self.bits & other.bits }
    }

    pub fn contains(self, f: StateFlags) -> (r: bool)
        ensures
            r == self.spec_contains(f),
    {
        let b = f.to_raw();
        self.bits & b == b
    }

    /// The foreign bit pattern of the whole set.
    pub fn bits(self) -> (r: u32)
        ensures
            r == self.spec_bits(),
    {
        self.bits
    }

    /// Reads a set back from a foreign bit pattern; absent when a bit outside
    /// the family's mask is present.
    pub fn from_bits(b: u32) -> (r: Option<Self>)
        ensures
            r matches Some(s) ==> s.spec_bits() == b && s.wf(),
            r is Some <==> b & !0x1ffu32 == 0,
    {
        if b & !0x1ffu32 == 0 {
            Some(StateFlagsSet { bits: b })
        } else {
            None
        }
    }

    /// Union law: the union of two sets converts to the bitwise OR of their
    /// foreign bits, and the set read back from that OR contains every flag
    /// that either input contains.
    pub proof fn lemma_union_law(a: Self, b: Self, u: Self)
        requires
            u.spec_bits() == a.spec_bits() | b.spec_bits(),
        ensures
            a.wf() && b.wf() ==> u.wf(),
            forall|f: StateFlags| a.spec_contains(f) || b.spec_contains(f) ==> u.spec_contains(f),
    {
        if a.wf() && b.wf() {
            lemma_or_in_mask(a.spec_bits(), b.spec_bits(), 0x1ffu32);
        }
        assert forall|f: StateFlags| a.spec_contains(f) || b.spec_contains(f) implies u.spec_contains(f) by {
            lemma_or_contains(a.spec_bits(), b.spec_bits(), f.to_raw_spec());
        }
    }
}

/// A set of `AccelFlags` values, carried as the bitwise union of their foreign bits.
#[derive(Clone, Copy, PartialEq, Eq, Structural, Debug)]
pub struct AccelFlagsSet {
    bits: u32,
}

impl AccelFlagsSet {
    /// The foreign bit pattern this set stands for.
    pub closed spec fn spec_bits(self) -> u32 {
        self.bits
    }

    /// Every bit of the set lies inside the family's mask.
    pub open spec fn wf(self) -> bool {
        self.spec_bits() & !0x7u32 == 0
    }

    /// Whether every bit of `f` is present in the set.
    pub open spec fn spec_contains(self, f: AccelFlags) -> bool {
        self.spec_bits() & f.to_raw_spec() == f.to_raw_spec()
    }

    /// Each single flag's bits lie inside the family's mask.
    pub proof fn lemma_flag_in_mask(f: AccelFlags)
        ensures
            f.to_raw_spec() & !0x7u32 == 0,
    {
        let b = f.to_raw_spec();
        assert(b & !0x7u32 == 0) by (bit_vector)
            requires
                b == 0u32 || b == 1u32 || b == 2u32 || b == 7u32,
        ;
    }

    pub fn empty() -> (r: Self)
        ensures
            r.spec_bits() == 0u32,
            r.wf(),
    {
        proof {
            lemma_zero_in_mask(0x7u32);
        }
        AccelFlagsSet { bits: 0 }
    }

    pub fn from_flag(f: AccelFlags) -> (r: Self)
        ensures
            r.spec_bits() == f.to_raw_spec(),
            r.wf(),
    {
        proof {
            Self::lemma_flag_in_mask(f);
        }
        AccelFlagsSet { bits: f.to_raw() }
    }

    /// The union of two sets: the bitwise OR of their foreign bits.
    pub fn union(self, other: Self) -> (r: Self)
        ensures
            r.spec_bits() == self.spec_bits() | other.spec_bits(),
            self.wf() && other.wf() ==> r.wf(),
    {
        proof {
            if self.wf() && other.wf() {
                lemma_or_in_mask(self.bits, other.bits, 0x7u32);
            }
        }
        AccelFlagsSet { bits: self.bits | other.bits }
    }

    /// The intersection of two sets: the bitwise AND of their foreign bits.
    pub fn intersect(self, other: Self) -> (r: Self)
        ensures
            r.spec_bits() == self.spec_bits() & other.spec_bits(),
            self.wf() ==> r.wf(),
    {
        proof {
            if self.wf() {
                lemma_and_in_mask(self.bits, other.bits, 0x7u32);
            }
        }
        AccelFlagsSet { bits: self.bits & other.bits }
    }

    pub fn contains(self, f: AccelFlags) -> (r: bool)
        ensures
            r == self.spec_contains(f),
    {
        let b = f.to_raw();
        self.bits & b == b
    }

    /// The foreign bit pattern of the whole set.
    pub fn bits(self) -> (r: u32)
        ensures
            r == self.spec_bits(),
    {
        self.bits
    }

    /// Reads a set back from a foreign bit pattern; absent when a bit outside
    /// the family's mask is present.
    pub fn from_bits(b: u32) -> (r: Option<Self>)
        ensures
            r matches Some(s) ==> s.spec_bits() == b && s.wf(),
            r is Some <==> b & !0x7u32 == 0,
    {
        if b & !0x7u32 == 0 {
            Some(AccelFlagsSet { bits: b })
        } else {
            None
        }
    }

    /// Union law: the union of two sets converts to the bitwise OR of their
    /// foreign bits, and the set read back from that OR contains every flag
    /// that either input contains.
    pub proof fn lemma_union_law(a: Self, b: Self, u: Self)
        requires
            u.spec_bits() == a.spec_bits() | b.spec_bits(),
        ensures
            a.wf() && b.wf() ==> u.wf(),
            forall|f: AccelFlags| a.spec_contains(f) || b.spec_contains(f) ==> u.spec_contains(f),
    {
        if a.wf() && b.wf() {
            lemma_or_in_mask(a.spec_bits(), b.spec_bits(), 0x7u32);
        }
        assert forall|f: AccelFlags| a.spec_contains(f) || b.spec_contains(f) implies u.spec_contains(f) by {
            lemma_or_contains(a.spec_bits(), b.spec_bits(), f.to_raw_spec());
        }
    }
}

/// A set of `AttachOptions` values, carried as the bitwise union of their foreign bits.
#[derive(Clone, Copy, PartialEq, Eq, Structural, Debug)]
pub struct AttachOptionsSet {
    bits: u32,
}

impl AttachOptionsSet {
    /// The foreign bit pattern this set stands for.
    pub closed spec fn spec_bits(self) -> u32 {
        self.bits
    }

    /// Every bit of the set lies inside the family's mask.
    pub open spec fn wf(self) -> bool {
        self.spec_bits() & !0x7u32 == 0
    }

    /// Whether every bit of `f` is present in the set.
    pub open spec fn spec_contains(self, f: AttachOptions) -> bool {
        self.spec_bits() & f.to_raw_spec() == f.to_raw_spec()
    }

    /// Each single flag's bits lie inside the family's mask.
    pub proof fn lemma_flag_in_mask(f: AttachOptions)
        ensures
            f.to_raw_spec() & !0x7u32 == 0,
    {
        let b = f.to_raw_spec();
        assert(b & !0x7u32 == 0) by (bit_vector)
            requires
                b == 0u32 || b == 1u32 || b == 2u32 || b == 4u32,
        ;
    }

    pub fn empty() -> (r: Self)
        ensures
            r.spec_bits() == 0u32,
            r.wf(),
    {
        proof {
            lemma_zero_in_mask(0x7u32);
        }
        AttachOptionsSet { bits: 0 }
    }

    pub fn from_flag(f: AttachOptions) -> (r: Self)
        ensures
            r.spec_bits() == f.to_raw_spec(),
            r.wf(),
    {
        proof {
            Self::lemma_flag_in_mask(f);
        }
        AttachOptionsSet { bits: f.to_raw() }
    }

    /// The union of two sets: the bitwise OR of their foreign bits.
    pub fn union(self, other: Self) -> (r: Self)
        ensures
            r.spec_bits() == self.spec_bits() | other.spec_bits(),
            self.wf() && other.wf() ==> r.wf(),
    {
        proof {
            if self.wf() && other.wf() {
                lemma_or_in_mask(self.bits, other.bits, 0x7u32);
            }
        }
        AttachOptionsSet { bits: self.bits | other.bits }
    }

    /// The intersection of two sets: the bitwise AND of their foreign bits.
    pub fn intersect(self, other: Self) -> (r: Self)
        ensures
            r.spec_bits() == self.spec_bits() & other.spec_bits(),
            self.wf() ==> r.wf(),
    {
        proof {
            if self.wf() {
                lemma_and_in_mask(self.bits, other.bits, 0x7u32);
            }
        }
        AttachOptionsSet { bits: self.bits & other.bits }
    }

    pub fn contains(self, f: AttachOptions) -> (r: bool)
        ensures
            r == self.spec_contains(f),
    {
        let b = f.to_raw();
        self.bits & b == b
    }

    /// The foreign bit pattern of the whole set.
    pub fn bits(self) -> (r: u32)
        ensures
            r == self.spec_bits(),
    {
        self.bits
    }

    /// Reads a set back from a foreign bit pattern; absent when a bit outside
    /// the family's mask is present.
    pub fn from_bits(b: u32) -> (r: Option<Self>)
        ensures
            r matches Some(s) ==> s.spec_bits() == b && s.wf(),
            r is Some <==> b & !0x7u32 == 0,
    {
        if b & !0x7u32 == 0 {
            Some(AttachOptionsSet { bits: b })
        } else {
            None
        }
    }

    /// Union law: the union of two sets converts to the bitwise OR of their
    /// foreign bits, and the set read back from that OR contains every flag
    /// that either input contains.
    pub proof fn lemma_union_law(a: Self, b: Self, u: Self)
        requires
            u.spec_bits() == a.spec_bits() | b.spec_bits(),
        ensures
            a.wf() && b.wf() ==> u.wf(),
            forall|f: AttachOptions| a.spec_contains(f) || b.spec_contains(f) ==> u.spec_contains(f),
    {
        if a.wf() && b.wf() {
            lemma_or_in_mask(a.spec_bits(), b.spec_bits(), 0x7u32);
        }
        assert forall|f: AttachOptions| a.spec_contains(f) || b.spec_contains(f) implies u.spec_contains(f) by {
            lemma_or_contains(a.spec_bits(), b.spec_bits(), f.to_raw_spec());
        }
    }
}

/// A set of `JunctionSides` values, carried as the bitwise union of their foreign bits.
#[derive(Clone, Copy, PartialEq, Eq, Structural, Debug)]
pub struct JunctionSidesSet {
    bits: u32,
}

impl JunctionSidesSet {
    /// The foreign bit pattern this set stands for.
    pub closed spec fn spec_bits(self) -> u32 {
        self.bits
    }

    /// Every bit of the set lies inside the family's mask.
    pub open spec fn wf(self) -> bool {
        self.spec_bits() & !0xfu32 == 0
    }

    /// Whether every bit of `f` is present in the set.
    pub open spec fn spec_contains(self, f: JunctionSides) -> bool {
        self.spec_bits() & f.to_raw_spec() == f.to_raw_spec()
    }

    /// Each single flag's bits lie inside the family's mask.
    pub proof fn lemma_flag_in_mask(f: JunctionSides)
        ensures
            f.to_raw_spec() & !0xfu32 == 0,
    {
        let b = f.to_raw_spec();
        assert(b & !0xfu32 == 0) by (bit_vector)
            requires
                b == 0u32 || b == 1u32 || b == 2u32 || b == 4u32 || b == 8u32 || b == 3u32 || b == 12u32 || b == 5u32 || b == 10u32,
        ;
    }

    pub fn empty() -> (r: Self)
        ensures
            r.spec_bits() == 0u32,
            r.wf(),
    {
        proof {
            lemma_zero_in_mask(0xfu32);
        }
        JunctionSidesSet { bits: 0 }
    }

    pub fn from_flag(f: JunctionSides) -> (r: Self)
        ensures
            r.spec_bits() == f.to_raw_spec(),
            r.wf(),
    {
        proof {
            Self::lemma_flag_in_mask(f);
        }
        JunctionSidesSet { bits: f.to_raw() }
    }

    /// The union of two sets: the bitwise OR of their foreign bits.
    pub fn union(self, other: Self) -> (r: Self)
        ensures
            r.spec_bits() == self.spec_bits() | other.spec_bits(),
            self.wf() && other.wf() ==> r.wf(),
    {
        proof {
            if self.wf() && other.wf() {
                lemma_or_in_mask(self.bits, other.bits, 0xfu32);
            }
        }
        JunctionSidesSet { bits: self.bits | other.bits }
    }

    /// The intersection of two sets: the bitwise AND of their foreign bits.
    pub fn intersect(self, other: Self) -> (r: Self)
        ensures
            r.spec_bits() == self.spec_bits() & other.spec_bits(),
            self.wf() ==> r.wf(),
    {
        proof {
            if self.wf() {
                lemma_and_in_mask(self.bits, other.bits, 0xfu32);
            }
        }
        JunctionSidesSet { bits: self.bits & other.bits }
    }

    pub fn contains(self, f: JunctionSides) -> (r: bool)
        ensures
            r == self.spec_contains(f),
    {
        let b = f.to_raw();
        self.bits & b == b
    }

    /// The foreign bit pattern of the whole set.
    pub fn bits(self) -> (r: u32)
        ensures
            r == self.spec_bits(),
    {
        self.bits
    }

    /// Reads a set back from a foreign bit pattern; absent when a bit outside
    /// the family's mask is present.
    pub fn from_bits(b: u32) -> (r: Option<Self>)
        ensures
            r matches Some(s) ==> s.spec_bits() == b && s.wf(),
            r is Some <==> b & !0xfu32 == 0,
    {
        if b & !0xfu32 == 0 {
            Some(JunctionSidesSet { bits: b })
        } else {
            None
        }
    }

    /// Union law: the union of two sets converts to the bitwise OR of their
    /// foreign bits, and the set read back from that OR contains every flag
    /// that either input contains.
    pub proof fn lemma_union_law(a: Self, b: Self, u: Self)
        requires
            u.spec_bits() == a.spec_bits() | b.spec_bits(),
        ensures
            a.wf() && b.wf() ==> u.wf(),
            forall|f: JunctionSides| a.spec_contains(f) || b.spec_contains(f) ==> u.spec_contains(f),
    {
        if a.wf() && b.wf() {
            lemma_or_in_mask(a.spec_bits(), b.spec_bits(), 0xfu32);
        }
        assert forall|f: JunctionSides| a.spec_contains(f) || b.spec_contains(f) implies u.spec_contains(f) by {
            lemma_or_contains(a.spec_bits(), b.spec_bits(), f.to_raw_spec());
        }
    }
}

/// A set of `RegionFlags` values, carried as the bitwise union of their foreign bits.
#[derive(Clone, Copy, PartialEq, Eq, Structural, Debug)]
pub struct RegionFlagsSet {
    bits: u32,
}

impl RegionFlagsSet {
    /// The foreign bit pattern this set stands for.
    pub closed spec fn spec_bits(self) -> u32 {
        self.bits
    }

    /// Every bit of the set lies inside the family's mask.
    pub open spec fn wf(self) -> bool {
        self.spec_bits() & !0x3fu32 == 0
    }

    /// Whether every bit of `f` is present in the set.
    pub open spec fn spec_contains(self, f: RegionFlags) -> bool {
        self.spec_bits() & f.to_raw_spec() == f.to_raw_spec()
    }

    /// Each single flag's bits lie inside the family's mask.
    pub proof fn lemma_flag_in_mask(f: RegionFlags)
        ensures
            f.to_raw_spec() & !0x3fu32 == 0,
    {
        let b = f.to_raw_spec();
        assert(b & !0x3fu32 == 0) by (bit_vector)
            requires
                b == 0u32 || b == 1u32 || b == 2u32 || b == 4u32 || b == 8u32 || b == 16u32 || b == 32u32,
        ;
    }

    pub fn empty() -> (r: Self)
        ensures
            r.spec_bits() == 0u32,
            r.wf(),
    {
        proof {
            lemma_zero_in_mask(0x3fu32);
        }
        RegionFlagsSet { bits: 0 }
    }

    pub fn from_flag(f: RegionFlags) -> (r: Self)
        ensures
            r.spec_bits() == f.to_raw_spec(),
            r.wf(),
    {
        proof {
            Self::lemma_flag_in_mask(f);
        }
        RegionFlagsSet { bits: f.to_raw() }
    }

    /// The union of two sets: the bitwise OR of their foreign bits.
    pub fn union(self, other: Self) -> (r: Self)
        ensures
            r.spec_bits() == self.spec_bits() | other.spec_bits(),
            self.wf() && other.wf() ==> r.wf(),
    {
        proof {
            if self.wf() && other.wf() {
                lemma_or_in_mask(self.bits, other.bits, 0x3fu32);
            }
        }
        RegionFlagsSet { bits: self.bits | other.bits }
    }

    /// The intersection of two sets: the bitwise AND of their foreign bits.
    pub fn intersect(self, other: Self) -> (r: Self)
        ensures
            r.spec_bits() == self.spec_bits() & other.spec_bits(),
            self.wf() ==> r.wf(),
    {
        proof {
            if self.wf() {
                lemma_and_in_mask(self.bits, other.bits, 0x3fu32);
            }
        }
        RegionFlagsSet { bits: self.bits & other.bits }
    }

    pub fn contains(self, f: RegionFlags) -> (r: bool)
        ensures
            r == self.spec_contains(f),
    {
        let b = f.to_raw();
        self.bits & b == b
    }

    /// The foreign bit pattern of the whole set.
    pub fn bits(self) -> (r: u32)
        ensures
            r == self.spec_bits(),
    {
        self.bits
    }

    /// Reads a set back from a foreign bit pattern; absent when a bit outside
    /// the family's mask is present.
    pub fn from_bits(b: u32) -> (r: Option<Self>)
        ensures
            r matches Some(s) ==> s.spec_bits() == b && s.wf(),
            r is Some <==> b & !0x3fu32 == 0,
    {
        if b & !0x3fu32 == 0 {
            Some(RegionFlagsSet { bits: b })
        } else {
            None
        }
    }

    /// Union law: the union of two sets converts to the bitwise OR of their
    /// foreign bits, and the set read back from that OR contains every flag
    /// that either input contains.
    pub proof fn lemma_union_law(a: Self, b: Self, u: Self)
        requires
            u.spec_bits() == a.spec_bits() | b.spec_bits(),
        ensures
            a.wf() && b.wf() ==> u.wf(),
            forall|f: RegionFlags| a.spec_contains(f) || b.spec_contains(f) ==> u.spec_contains(f),
    {
        if a.wf() && b.wf() {
            lemma_or_in_mask(a.spec_bits(), b.spec_bits(), 0x3fu32);
        }
        assert forall|f: RegionFlags| a.spec_contains(f) || b.spec_contains(f) implies u.spec_contains(f) by {
            lemma_or_contains(a.spec_bits(), b.spec_bits(), f.to_raw_spec());
        }
    }
}

/// A set of `InputHints` values, carried as the bitwise union of their foreign bits.
#[derive(Clone, Copy, PartialEq, Eq, Structural, Debug)]
pub struct InputHintsSet {
    bits: u32,
}

impl InputHintsSet {
    /// The foreign bit pattern this set stands for.
    pub closed spec fn spec_bits(self) -> u32 {
        self.bits
    }

    /// Every bit of the set lies inside the family's mask.
    pub open spec fn wf(self) -> bool {
        self.spec_bits() & !0xffu32 == 0
    }

    /// Whether every bit of `f` is present in the set.
    pub open spec fn spec_contains(self, f: InputHints) -> bool {
        self.spec_bits() & f.to_raw_spec() == f.to_raw_spec()
    }

    /// Each single flag's bits lie inside the family's mask.
    pub proof fn lemma_flag_in_mask(f: InputHints)
        ensures
            f.to_raw_spec() & !0xffu32 == 0,
    {
        let b = f.to_raw_spec();
        assert(b & !0xffu32 == 0) by (bit_vector)
            requires
                b == 0u32 || b == 1u32 || b == 2u32 || b == 4u32 || b == 8u32 || b == 16u32 || b == 32u32 || b == 64u32 || b == 128u32,
        ;
    }

    pub fn empty() -> (r: Self)
        ensures
            r.spec_bits() == 0u32,
            r.wf(),
    {
        proof {
            lemma_zero_in_mask(0xffu32);
        }
        InputHintsSet { bits: 0 }
    }

    pub fn from_flag(f: InputHints) -> (r: Self)
        ensures
            r.spec_bits() == f.to_raw_spec(),
            r.wf(),
    {
        proof {
            Self::lemma_flag_in_mask(f);
        }
        InputHintsSet { bits: f.to_raw() }
    }

    /// The union of two sets: the bitwise OR of their foreign bits.
    pub fn union(self, other: Self) -> (r: Self)
        ensures
            r.spec_bits() == self.spec_bits() | other.spec_bits(),
            self.wf() && other.wf() ==> r.wf(),
    {
        proof {
            if self.wf() && other.wf() {
                lemma_or_in_mask(self.bits, other.bits, 0xffu32);
            }
        }
        InputHintsSet { bits: self.bits | other.bits }
    }

    /// The intersection of two sets: the bitwise AND of their foreign bits.
    pub fn intersect(self, other: Self) -> (r: Self)
        ensures
            r.spec_bits() == self.spec_bits() & other.spec_bits(),
            self.wf() ==> r.wf(),
    {
        proof {
            if self.wf() {
                lemma_and_in_mask(self.bits, other.bits, 0xffu32);
            }
        }
        InputHintsSet { bits: self.bits & other.bits }
    }

    pub fn contains(self, f: InputHints) -> (r: bool)
        ensures
            r == self.spec_contains(f),
    {
        let b = f.to_raw();
        self.bits & b == b
    }

    /// The foreign bit pattern of the whole set.
    pub fn bits(self) -> (r: u32)
        ensures
            r == self.spec_bits(),
    {
        self.bits
    }

    /// Reads a set back from a foreign bit pattern; absent when a bit outside
    /// the family's mask is present.
    pub fn from_bits(b: u32) -> (r: Option<Self>)
        ensures
            r matches Some(s) ==> s.spec_bits() == b && s.wf(),
            r is Some <==> b & !0xffu32 == 0,
    {
        if b & !0xffu32 == 0 {
            Some(InputHintsSet { bits: b })
        } else {
            None
        }
    }

    /// Union law: the union of two sets converts to the bitwise OR of their
    /// foreign bits, and the set read back from that OR contains every flag
    /// that either input contains.
    pub proof fn lemma_union_law(a: Self, b: Self, u: Self)
        requires
            u.spec_bits() == a.spec_bits() | b.spec_bits(),
        ensures
            a.wf() && b.wf() ==> u.wf(),
            forall|f: InputHints| a.spec_contains(f) || b.spec_contains(f) ==> u.spec_contains(f),
    {
        if a.wf() && b.wf() {
            lemma_or_in_mask(a.spec_bits(), b.spec_bits(), 0xffu32);
        }
        assert forall|f: InputHints| a.spec_contains(f) || b.spec_contains(f) implies u.spec_contains(f) by {
            lemma_or_contains(a.spec_bits(), b.spec_bits(), f.to_raw_spec());
        }
    }
}

/// A set of `CalendarDisplayOptions` values, carried as the bitwise union of their foreign bits.
#[derive(Clone, Copy, PartialEq, Eq, Structural, Debug)]
pub struct CalendarDisplayOptionsSet {
    bits: u32,
}

impl CalendarDisplayOptionsSet {
    /// The foreign bit pattern this set stands for.
    pub closed spec fn spec_bits(self) -> u32 {
        self.bits
    }

    /// Every bit of the set lies inside the family's mask.
    pub open spec fn wf(self) -> bool {
        self.spec_bits() & !0x2fu32 == 0
    }

    /// Whether every bit of `f` is present in the set.
    pub open spec fn spec_contains(self, f: CalendarDisplayOptions) -> bool {
        self.spec_bits() & f.to_raw_spec() == f.to_raw_spec()
    }

    /// Each single flag's bits lie inside the family's mask.
    pub proof fn lemma_flag_in_mask(f: CalendarDisplayOptions)
        ensures
            f.to_raw_spec() & !0x2fu32 == 0,
    {
        let b = f.to_raw_spec();
        assert(b & !0x2fu32 == 0) by (bit_vector)
            requires
                b == 0u32 || b == 1u32 || b == 2u32 || b == 4u32 || b == 8u32 || b == 32u32,
        ;
    }

    pub fn empty() -> (r: Self)
        ensures
            r.spec_bits() == 0u32,
            r.wf(),
    {
        proof {
            lemma_zero_in_mask(0x2fu32);
        }
        CalendarDisplayOptionsSet { bits: 0 }
    }

    pub fn from_flag(f: CalendarDisplayOptions) -> (r: Self)
        ensures
            r.spec_bits() == f.to_raw_spec(),
            r.wf(),
    {
        proof {
            Self::lemma_flag_in_mask(f);
        }
        CalendarDisplayOptionsSet { bits: f.to_raw() }
    }

    /// The union of two sets: the bitwise OR of their foreign bits.
    pub fn union(self, other: Self) -> (r: Self)
        ensures
            r.spec_bits() == self.spec_bits() | other.spec_bits(),
            self.wf() && other.wf() ==> r.wf(),
    {
        proof {
            if self.wf() && other.wf() {
                lemma_or_in_mask(self.bits, other.bits, 0x2fu32);
            }
        }
        CalendarDisplayOptionsSet { bits: self.bits | other.bits }
    }

    /// The intersection of two sets: the bitwise AND of their foreign bits.
    pub fn intersect(self, other: Self) -> (r: Self)
        ensures
            r.spec_bits() == self.spec_bits() & other.spec_bits(),
            self.wf() ==> r.wf(),
    {
        proof {
            if self.wf() {
                lemma_and_in_mask(self.bits, other.bits, 0x2fu32);
            }
        }
        CalendarDisplayOptionsSet { bits: self.bits & other.bits }
    }

    pub fn contains(self, f: CalendarDisplayOptions) -> (r: bool)
        ensures
            r == self.spec_contains(f),
    {
        let b = f.to_raw();
        self.bits & b == b
    }

    /// The foreign bit pattern of the whole set.
    pub fn bits(self) -> (r: u32)
        ensures
            r == self.spec_bits(),
    {
        self.bits
    }

    /// Reads a set back from a foreign bit pattern; absent when a bit outside
    /// the family's mask is present.
    pub fn from_bits(b: u32) -> (r: Option<Self>)
        ensures
            r matches Some(s) ==> s.spec_bits() == b && s.wf(),
            r is Some <==> b & !0x2fu32 == 0,
    {
        if b & !0x2fu32 == 0 {
            Some(CalendarDisplayOptionsSet { bits: b })
        } else {
            None
        }
    }

    /// Union law: the union of two sets converts to the bitwise OR of their
    /// foreign bits, and the set read back from that OR contains every flag
    /// that either input contains.
    pub proof fn lemma_union_law(a: Self, b: Self, u: Self)
        requires
            u.spec_bits() == a.spec_bits() | b.spec_bits(),
        ensures
            a.wf() && b.wf() ==> u.wf(),
            forall|f: CalendarDisplayOptions| a.spec_contains(f) || b.spec_contains(f) ==> u.spec_contains(f),
    {
        if a.wf() && b.wf() {
            lemma_or_in_mask(a.spec_bits(), b.spec_bits(), 0x2fu32);
        }
        assert forall|f: CalendarDisplayOptions| a.spec_contains(f) || b.spec_contains(f) implies u.spec_contains(f) by {
            lemma_or_contains(a.spec_bits(), b.spec_bits(), f.to_raw_spec());
        }
    }
}

} // verus!
