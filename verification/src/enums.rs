//! The toolkit's plain enumerations: closed bijections between a tag and a
//! foreign integer constant.

use vstd::prelude::*;

verus! {

/// Kinds of toplevel window.
#[derive(Clone, Copy, PartialEq, Eq, Structural, Debug)]
pub enum WindowType {
    TopLevel,
    PopUp,
}

impl WindowType {
    /// The foreign integer constant this tag stands for.
    pub open spec fn to_raw_spec(self) -> i32 {
        match self {
            WindowType::TopLevel => 0i32,
            WindowType::PopUp => 1i32,
        }
    }

    /// The tag a foreign integer stands for, if any.
    pub open spec fn from_raw_spec(raw: i32) -> Option<WindowType> {
        if raw == 0i32 {
            Some(WindowType::TopLevel)
        } else if raw == 1i32 {
            Some(WindowType::PopUp)
        } else {
            None
        }
    }

    pub fn to_raw(self) -> (r: i32)
        ensures
            r == self.to_raw_spec(),
    {
        match self {
            WindowType::TopLevel => 0i32,
            WindowType::PopUp => 1i32,
        }
    }

    pub fn from_raw(raw: i32) -> (r: Option<WindowType>)
        ensures
            r == Self::from_raw_spec(raw),
    {
        if raw == 0i32 {
            Some(WindowType::TopLevel)
        } else if raw == 1i32 {
            Some(WindowType::PopUp)
        } else {
            None
        }
    }

    /// Round-trip law: converting a tag to its foreign integer and back
    /// yields the original tag.
    pub proof fn lemma_round_trip(self)
        ensures
            Self::from_raw_spec(self.to_raw_spec()) == Some(self),
    {
    }

    /// Reverse round-trip law: a foreign integer that reads back as a tag is
    /// exactly that tag's foreign integer.
    pub proof fn lemma_raw_round_trip(raw: i32)
        ensures
            Self::from_raw_spec(raw) matches Some(t) ==> t.to_raw_spec() == raw,
    {
    }
}

/// Reading directions for text.
#[derive(Clone, Copy, PartialEq, Eq, Structural, Debug)]
pub enum TextDirection {
    NoDirection,
    Ltr,
    Rtl,
}

impl TextDirection {
    /// The foreign integer constant this tag stands for.
    pub open spec fn to_raw_spec(self) -> i32 {
        match self {
            TextDirection::NoDirection => 0i32,
            TextDirection::Ltr => 1i32,
            TextDirection::Rtl => 2i32,
        }
    }

    /// The tag a foreign integer stands for, if any.
    pub open spec fn from_raw_spec(raw: i32) -> Option<TextDirection> {
        if raw == 0i32 {
            Some(TextDirection::NoDirection)
        } else if raw == 1i32 {
            Some(TextDirection::Ltr)
        } else if raw == 2i32 {
            Some(TextDirection::Rtl)
        } else {
            None
        }
    }

    pub fn to_raw(self) -> (r: i32)
        ensures
            r == self.to_raw_spec(),
    {
        match self {
            TextDirection::NoDirection => 0i32,
            TextDirection::Ltr => 1i32,
            TextDirection::Rtl => 2i32,
        }
    }

    pub fn from_raw(raw: i32) -> (r: Option<TextDirection>)
        ensures
            r == Self::from_raw_spec(raw),
    {
        if raw == 0i32 {
            Some(TextDirection::NoDirection)
        } else if raw == 1i32 {
            Some(TextDirection::Ltr)
        } else if raw == 2i32 {
            Some(TextDirection::Rtl)
        } else {
            None
        }
    }

    /// Round-trip law: converting a tag to its foreign integer and back
    /// yields the original tag.
    pub proof fn lemma_round_trip(self)
        ensures
            Self::from_raw_spec(self.to_raw_spec()) == Some(self),
    {
    }

    /// Reverse round-trip law: a foreign integer that reads back as a tag is
    /// exactly that tag's foreign integer.
    pub proof fn lemma_raw_round_trip(raw: i32)
        ensures
            Self::from_raw_spec(raw) matches Some(t) ==> t.to_raw_spec() == raw,
    {
    }
}

/// Hints for initial window placement.
#[derive(Clone, Copy, PartialEq, Eq, Structural, Debug)]
pub enum WindowPosition {
    NoPosition,
    Center,
    Mouse,
    CenterAlways,
    CenterOnParent,
}

impl WindowPosition {
    /// The foreign integer constant this tag stands for.
    pub open spec fn to_raw_spec(self) -> i32 {
        match self {
            WindowPosition::NoPosition => 0i32,
            WindowPosition::Center => 1i32,
            WindowPosition::Mouse => 2i32,
            WindowPosition::CenterAlways => 3i32,
            WindowPosition::CenterOnParent => 4i32,
        }
    }

    /// The tag a foreign integer stands for, if any.
    pub open spec fn from_raw_spec(raw: i32) -> Option<WindowPosition> {
        if raw == 0i32 {
            Some(WindowPosition::NoPosition)
        } else if raw == 1i32 {
            Some(WindowPosition::Center)
        } else if raw == 2i32 {
            Some(WindowPosition::Mouse)
        } else if raw == 3i32 {
            Some(WindowPosition::CenterAlways)
        } else if raw == 4i32 {
            Some(WindowPosition::CenterOnParent)
        } else {
            None
        }
    }

    pub fn to_raw(self) -> (r: i32)
        ensures
            r == self.to_raw_spec(),
    {
        match self {
            WindowPosition::NoPosition => 0i32,
            WindowPosition::Center => 1i32,
            WindowPosition::Mouse => 2i32,
            WindowPosition::CenterAlways => 3i32,
            WindowPosition::CenterOnParent => 4i32,
        }
    }

    pub fn from_raw(raw: i32) -> (r: Option<WindowPosition>)
        ensures
            r == Self::from_raw_spec(raw),
    {
        if raw == 0i32 {
            Some(WindowPosition::NoPosition)
        } else if raw == 1i32 {
            Some(WindowPosition::Center)
        } else if raw == 2i32 {
            Some(WindowPosition::Mouse)
        } else if raw == 3i32 {
            Some(WindowPosition::CenterAlways)
        } else if raw == 4i32 {
            Some(WindowPosition::CenterOnParent)
        } else {
            None
        }
    }

    /// Round-trip law: converting a tag to its foreign integer and back
    /// yields the original tag.
    pub proof fn lemma_round_trip(self)
        ensures
            Self::from_raw_spec(self.to_raw_spec()) == Some(self),
    {
    }

    /// Reverse round-trip law: a foreign integer that reads back as a tag is
    /// exactly that tag's foreign integer.
    pub proof fn lemma_raw_round_trip(raw: i32)
        ensures
            Self::from_raw_spec(raw) matches Some(t) ==> t.to_raw_spec() == raw,
    {
    }
}

/// Layout styles for the buttons of a button box.
#[derive(Clone, Copy, PartialEq, Eq, Structural, Debug)]
pub enum ButtonBoxStyle {
    Spread,
    Edge,
    Start,
    End,
    Center,
}

impl ButtonBoxStyle {
    /// The foreign integer constant this tag stands for.
    pub open spec fn to_raw_spec(self) -> i32 {
        match self {
            ButtonBoxStyle::Spread => 1i32,
            ButtonBoxStyle::Edge => 2i32,
            ButtonBoxStyle::Start => 3i32,
            ButtonBoxStyle::End => 4i32,
            ButtonBoxStyle::Center => 5i32,
        }
    }

    /// The tag a foreign integer stands for, if any.
    pub open spec fn from_raw_spec(raw: i32) -> Option<ButtonBoxStyle> {
        if raw == 1i32 {
            Some(ButtonBoxStyle::Spread)
        } else if raw == 2i32 {
            Some(ButtonBoxStyle::Edge)
        } else if raw == 3i32 {
            Some(ButtonBoxStyle::Start)
        } else if raw == 4i32 {
            Some(ButtonBoxStyle::End)
        } else if raw == 5i32 {
            Some(ButtonBoxStyle::Center)
        } else {
            None
        }
    }

    pub fn to_raw(self) -> (r: i32)
        ensures
            r == self.to_raw_spec(),
    {
        match self {
            ButtonBoxStyle::Spread => 1i32,
            ButtonBoxStyle::Edge => 2i32,
            ButtonBoxStyle::Start => 3i32,
            ButtonBoxStyle::End => 4i32,
            ButtonBoxStyle::Center => 5i32,
        }
    }

    pub fn from_raw(raw: i32) -> (r: Option<ButtonBoxStyle>)
        ensures
            r == Self::from_raw_spec(raw),
    {
        if raw == 1i32 {
            Some(ButtonBoxStyle::Spread)
        } else if raw == 2i32 {
            Some(ButtonBoxStyle::Edge)
        } else if raw == 3i32 {
            Some(ButtonBoxStyle::Start)
        } else if raw == 4i32 {
            Some(ButtonBoxStyle::End)
        } else if raw == 5i32 {
            Some(ButtonBoxStyle::Center)
        } else {
            None
        }
    }

    /// Round-trip law: converting a tag to its foreign integer and back
    /// yields the original tag.
    pub proof fn lemma_round_trip(self)
        ensures
            Self::from_raw_spec(self.to_raw_spec()) == Some(self),
    {
    }

    /// Reverse round-trip law: a foreign integer that reads back as a tag is
    /// exactly that tag's foreign integer.
    pub proof fn lemma_raw_round_trip(raw: i32)
        ensures
            Self::from_raw_spec(raw) matches Some(t) ==> t.to_raw_spec() == raw,
    {
    }
}

/// Orientation of widgets that can be flipped between horizontal and vertical.
#[derive(Clone, Copy, PartialEq, Eq, Structural, Debug)]
pub enum Orientation {
    Horizontal,
    Vertical,
}

impl Orientation {
    /// The foreign integer constant this tag stands for.
    pub open spec fn to_raw_spec(self) -> i32 {
        match self {
            Orientation::Horizontal => 0i32,
            Orientation::Vertical => 1i32,
        }
    }

    /// The tag a foreign integer stands for, if any.
    pub open spec fn from_raw_spec(raw: i32) -> Option<Orientation> {
        if raw == 0i32 {
            Some(Orientation::Horizontal)
        } else if raw == 1i32 {
            Some(Orientation::Vertical)
        } else {
            None
        }
    }

    pub fn to_raw(self) -> (r: i32)
        ensures
            r == self.to_raw_spec(),
    {
        match self {
            Orientation::Horizontal => 0i32,
            Orientation::Vertical => 1i32,
        }
    }

    pub fn from_raw(raw: i32) -> (r: Option<Orientation>)
        ensures
            r == Self::from_raw_spec(raw),
    {
        if raw == 0i32 {
            Some(Orientation::Horizontal)
        } else if raw == 1i32 {
            Some(Orientation::Vertical)
        } else {
            None
        }
    }

    /// Round-trip law: converting a tag to its foreign integer and back
    /// yields the original tag.
    pub proof fn lemma_round_trip(self)
        ensures
            Self::from_raw_spec(self.to_raw_spec()) == Some(self),
    {
    }

    /// Reverse round-trip law: a foreign integer that reads back as a tag is
    /// exactly that tag's foreign integer.
    pub proof fn lemma_raw_round_trip(raw: i32)
        ensures
            Self::from_raw_spec(raw) matches Some(t) ==> t.to_raw_spec() == raw,
    {
    }
}

/// Focus movement directions.
#[derive(Clone, Copy, PartialEq, Eq, Structural, Debug)]
pub enum DirectionType {
    TabForward,
    TabBackward,
    Up,
    Down,
    Left,
    Right,
}

impl DirectionType {
    /// The foreign integer constant this tag stands for.
    pub open spec fn to_raw_spec(self) -> i32 {
        match self {
            DirectionType::TabForward => 0i32,
            DirectionType::TabBackward => 1i32,
            DirectionType::Up => 2i32,
            DirectionType::Down => 3i32,
            DirectionType::Left => 4i32,
            DirectionType::Right => 5i32,
        }
    }

    /// The tag a foreign integer stands for, if any.
    pub open spec fn from_raw_spec(raw: i32) -> Option<DirectionType> {
        if raw == 0i32 {
            Some(DirectionType::TabForward)
        } else if raw == 1i32 {
            Some(DirectionType::TabBackward)
        } else if raw == 2i32 {
            Some(DirectionType::Up)
        } else if raw == 3i32 {
            Some(DirectionType::Down)
        } else if raw == 4i32 {
            Some(DirectionType::Left)
        } else if raw == 5i32 {
            Some(DirectionType::Right)
        } else {
            None
        }
    }

    pub fn to_raw(self) -> (r: i32)
        ensures
            r == self.to_raw_spec(),
    {
        match self {
            DirectionType::TabForward => 0i32,
            DirectionType::TabBackward => 1i32,
            DirectionType::Up => 2i32,
            DirectionType::Down => 3i32,
            DirectionType::Left => 4i32,
            DirectionType::Right => 5i32,
        }
    }

    pub fn from_raw(raw: i32) -> (r: Option<DirectionType>)
        ensures
            r == Self::from_raw_spec(raw),
    {
        if raw == 0i32 {
            Some(DirectionType::TabForward)
        } else if raw == 1i32 {
            Some(DirectionType::TabBackward)
        } else if raw == 2i32 {
            Some(DirectionType::Up)
        } else if raw == 3i32 {
            Some(DirectionType::Down)
        } else if raw == 4i32 {
            Some(DirectionType::Left)
        } else if raw == 5i32 {
            Some(DirectionType::Right)
        } else {
            None
        }
    }

    /// Round-trip law: converting a tag to its foreign integer and back
    /// yields the original tag.
    pub proof fn lemma_round_trip(self)
        ensures
            Self::from_raw_spec(self.to_raw_spec()) == Some(self),
    {
    }

    /// Reverse round-trip law: a foreign integer that reads back as a tag is
    /// exactly that tag's foreign integer.
    pub proof fn lemma_raw_round_trip(raw: i32)
        ensures
            Self::from_raw_spec(raw) matches Some(t) ==> t.to_raw_spec() == raw,
    {
    }
}

/// The corner a child widget is placed in inside a scrolled window.
#[derive(Clone, Copy, PartialEq, Eq, Structural, Debug)]
pub enum CornerType {
    TopLeft,
    BottomLeft,
    TopRight,
    BottomRight,
}

impl CornerType {
    /// The foreign integer constant this tag stands for.
    pub open spec fn to_raw_spec(self) -> i32 {
        match self {
            CornerType::TopLeft => 0i32,
            CornerType::BottomLeft => 1i32,
            CornerType::TopRight => 2i32,
            CornerType::BottomRight => 3i32,
        }
    }

    /// The tag a foreign integer stands for, if any.
    pub open spec fn from_raw_spec(raw: i32) -> Option<CornerType> {
        if raw == 0i32 {
            Some(CornerType::TopLeft)
        } else if raw == 1i32 {
            Some(CornerType::BottomLeft)
        } else if raw == 2i32 {
            Some(CornerType::TopRight)
        } else if raw == 3i32 {
            Some(CornerType::BottomRight)
        } else {
            None
        }
    }

    pub fn to_raw(self) -> (r: i32)
        ensures
            r == self.to_raw_spec(),
    {
        match self {
            CornerType::TopLeft => 0i32,
            CornerType::BottomLeft => 1i32,
            CornerType::TopRight => 2i32,
            CornerType::BottomRight => 3i32,
        }
    }

    pub fn from_raw(raw: i32) -> (r: Option<CornerType>)
        ensures
            r == Self::from_raw_spec(raw),
    {
        if raw == 0i32 {
            Some(CornerType::TopLeft)
        } else if raw == 1i32 {
            Some(CornerType::BottomLeft)
        } else if raw == 2i32 {
            Some(CornerType::TopRight)
        } else if raw == 3i32 {
            Some(CornerType::BottomRight)
        } else {
            None
        }
    }

    /// Round-trip law: converting a tag to its foreign integer and back
    /// yields the original tag.
    pub proof fn lemma_round_trip(self)
        ensures
            Self::from_raw_spec(self.to_raw_spec()) == Some(self),
    {
    }

    /// Reverse round-trip law: a foreign integer that reads back as a tag is
    /// exactly that tag's foreign integer.
    pub proof fn lemma_raw_round_trip(raw: i32)
        ensures
            Self::from_raw_spec(raw) matches Some(t) ==> t.to_raw_spec() == raw,
    {
    }
}

/// How a container reacts to resize requests.
#[derive(Clone, Copy, PartialEq, Eq, Structural, Debug)]
pub enum ResizeMode {
    Parent,
    Queue,
    Immediate,
}

impl ResizeMode {
    /// The foreign integer constant this tag stands for.
    pub open spec fn to_raw_spec(self) -> i32 {
        match self {
            ResizeMode::Parent => 0i32,
            ResizeMode::Queue => 1i32,
            ResizeMode::Immediate => 2i32,
        }
    }

    /// The tag a foreign integer stands for, if any.
    pub open spec fn from_raw_spec(raw: i32) -> Option<ResizeMode> {
        if raw == 0i32 {
            Some(ResizeMode::Parent)
        } else if raw == 1i32 {
            Some(ResizeMode::Queue)
        } else if raw == 2i32 {
            Some(ResizeMode::Immediate)
        } else {
            None
        }
    }

    pub fn to_raw(self) -> (r: i32)
        ensures
            r == self.to_raw_spec(),
    {
        match self {
            ResizeMode::Parent => 0i32,
            ResizeMode::Queue => 1i32,
            ResizeMode::Immediate => 2i32,
        }
    }

    pub fn from_raw(raw: i32) -> (r: Option<ResizeMode>)
        ensures
            r == Self::from_raw_spec(raw),
    {
        if raw == 0i32 {
            Some(ResizeMode::Parent)
        } else if raw == 1i32 {
            Some(ResizeMode::Queue)
        } else if raw == 2i32 {
            Some(ResizeMode::Immediate)
        } else {
            None
        }
    }

    /// Round-trip law: converting a tag to its foreign integer and back
    /// yields the original tag.
    pub proof fn lemma_round_trip(self)
        ensures
            Self::from_raw_spec(self.to_raw_spec()) == Some(self),
    {
    }

    /// Reverse round-trip law: a foreign integer that reads back as a tag is
    /// exactly that tag's foreign integer.
    pub proof fn lemma_raw_round_trip(raw: i32)
        ensures
            Self::from_raw_spec(raw) matches Some(t) ==> t.to_raw_spec() == raw,
    {
    }
}

/// How the border of an element is rendered.
#[derive(Clone, Copy, PartialEq, Eq, Structural, Debug)]
pub enum BorderStyle {
    NoBorder,
    Solid,
    Inset,
    Outset,
    Hidden,
    Dotted,
    Dashed,
    Double,
    Groove,
    Ridge,
}

impl BorderStyle {
    /// The foreign integer constant this tag stands for.
    pub open spec fn to_raw_spec(self) -> i32 {
        match self {
            BorderStyle::NoBorder => 0i32,
            BorderStyle::Solid => 1i32,
            BorderStyle::Inset => 2i32,
            BorderStyle::Outset => 3i32,
            BorderStyle::Hidden => 4i32,
            BorderStyle::Dotted => 5i32,
            BorderStyle::Dashed => 6i32,
            BorderStyle::Double => 7i32,
            BorderStyle::Groove => 8i32,
            BorderStyle::Ridge => 9i32,
        }
    }

    /// The tag a foreign integer stands for, if any.
    pub open spec fn from_raw_spec(raw: i32) -> Option<BorderStyle> {
        if raw == 0i32 {
            Some(BorderStyle::NoBorder)
        } else if raw == 1i32 {
            Some(BorderStyle::Solid)
        } else if raw == 2i32 {
            Some(BorderStyle::Inset)
        } else if raw == 3i32 {
            Some(BorderStyle::Outset)
        } else if raw == 4i32 {
            Some(BorderStyle::Hidden)
        } else if raw == 5i32 {
            Some(BorderStyle::Dotted)
        } else if raw == 6i32 {
            Some(BorderStyle::Dashed)
        } else if raw == 7i32 {
            Some(BorderStyle::Double)
        } else if raw == 8i32 {
            Some(BorderStyle::Groove)
        } else if raw == 9i32 {
            Some(BorderStyle::Ridge)
        } else {
            None
        }
    }

    pub fn to_raw(self) -> (r: i32)
        ensures
            r == self.to_raw_spec(),
    {
        match self {
            BorderStyle::NoBorder => 0i32,
            BorderStyle::Solid => 1i32,
            BorderStyle::Inset => 2i32,
            BorderStyle::Outset => 3i32,
            BorderStyle::Hidden => 4i32,
            BorderStyle::Dotted => 5i32,
            BorderStyle::Dashed => 6i32,
            BorderStyle::Double => 7i32,
            BorderStyle::Groove => 8i32,
            BorderStyle::Ridge => 9i32,
        }
    }

    pub fn from_raw(raw: i32) -> (r: Option<BorderStyle>)
        ensures
            r == Self::from_raw_spec(raw),
    {
        if raw == 0i32 {
            Some(BorderStyle::NoBorder)
        } else if raw == 1i32 {
            Some(BorderStyle::Solid)
        } else if raw == 2i32 {
            Some(BorderStyle::Inset)
        } else if raw == 3i32 {
            Some(BorderStyle::Outset)
        } else if raw == 4i32 {
            Some(BorderStyle::Hidden)
        } else if raw == 5i32 {
            Some(BorderStyle::Dotted)
        } else if raw == 6i32 {
            Some(BorderStyle::Dashed)
        } else if raw == 7i32 {
            Some(BorderStyle::Double)
        } else if raw == 8i32 {
            Some(BorderStyle::Groove)
        } else if raw == 9i32 {
            Some(BorderStyle::Ridge)
        } else {
            None
        }
    }

    /// Round-trip law: converting a tag to its foreign integer and back
    /// yields the original tag.
    pub proof fn lemma_round_trip(self)
        ensures
            Self::from_raw_spec(self.to_raw_spec()) == Some(self),
    {
    }

    /// Reverse round-trip law: a foreign integer that reads back as a tag is
    /// exactly that tag's foreign integer.
    pub proof fn lemma_raw_round_trip(raw: i32)
        ensures
            Self::from_raw_spec(raw) matches Some(t) ==> t.to_raw_spec() == raw,
    {
    }
}

/// Direction of a sort.
#[derive(Clone, Copy, PartialEq, Eq, Structural, Debug)]
pub enum SortType {
    Ascending,
    Descending,
}

impl SortType {
    /// The foreign integer constant this tag stands for.
    pub open spec fn to_raw_spec(self) -> i32 {
        match self {
            SortType::Ascending => 0i32,
            SortType::Descending => 1i32,
        }
    }

    /// The tag a foreign integer stands for, if any.
    pub open spec fn from_raw_spec(raw: i32) -> Option<SortType> {
        if raw == 0i32 {
            Some(SortType::Ascending)
        } else if raw == 1i32 {
            Some(SortType::Descending)
        } else {
            None
        }
    }

    pub fn to_raw(self) -> (r: i32)
        ensures
            r == self.to_raw_spec(),
    {
        match self {
            SortType::Ascending => 0i32,
            SortType::Descending => 1i32,
        }
    }

    pub fn from_raw(raw: i32) -> (r: Option<SortType>)
        ensures
            r == Self::from_raw_spec(raw),
    {
        if raw == 0i32 {
            Some(SortType::Ascending)
        } else if raw == 1i32 {
            Some(SortType::Descending)
        } else {
            None
        }
    }

    /// Round-trip law: converting a tag to its foreign integer and back
    /// yields the original tag.
    pub proof fn lemma_round_trip(self)
        ensures
            Self::from_raw_spec(self.to_raw_spec()) == Some(self),
    {
    }

    /// Reverse round-trip law: a foreign integer that reads back as a tag is
    /// exactly that tag's foreign integer.
    pub proof fn lemma_raw_round_trip(raw: i32)
        ensures
            Self::from_raw_spec(raw) matches Some(t) ==> t.to_raw_spec() == raw,
    {
    }
}

/// Why a drag operation failed.
#[derive(Clone, Copy, PartialEq, Eq, Structural, Debug)]
pub enum DragResult {
    Success,
    NoTarget,
    UserCanceled,
    TimeoutExpired,
    GrabBroken,
    Error,
}

impl DragResult {
    /// The foreign integer constant this tag stands for.
    pub open spec fn to_raw_spec(self) -> i32 {
        match self {
            DragResult::Success => 0i32,
            DragResult::NoTarget => 1i32,
            DragResult::UserCanceled => 2i32,
            DragResult::TimeoutExpired => 3i32,
            DragResult::GrabBroken => 4i32,
            DragResult::Error => 5i32,
        }
    }

    /// The tag a foreign integer stands for, if any.
    pub open spec fn from_raw_spec(raw: i32) -> Option<DragResult> {
        if raw == 0i32 {
            Some(DragResult::Success)
        } else if raw == 1i32 {
            Some(DragResult::NoTarget)
        } else if raw == 2i32 {
            Some(DragResult::UserCanceled)
        } else if raw == 3i32 {
            Some(DragResult::TimeoutExpired)
        } else if raw == 4i32 {
            Some(DragResult::GrabBroken)
        } else if raw == 5i32 {
            Some(DragResult::Error)
        } else {
            None
        }
    }

    pub fn to_raw(self) -> (r: i32)
        ensures
            r == self.to_raw_spec(),
    {
        match self {
            DragResult::Success => 0i32,
            DragResult::NoTarget => 1i32,
            DragResult::UserCanceled => 2i32,
            DragResult::TimeoutExpired => 3i32,
            DragResult::GrabBroken => 4i32,
            DragResult::Error => 5i32,
        }
    }

    pub fn from_raw(raw: i32) -> (r: Option<DragResult>)
        ensures
            r == Self::from_raw_spec(raw),
    {
        if raw == 0i32 {
            Some(DragResult::Success)
        } else if raw == 1i32 {
            Some(DragResult::NoTarget)
        } else if raw == 2i32 {
            Some(DragResult::UserCanceled)
        } else if raw == 3i32 {
            Some(DragResult::TimeoutExpired)
        } else if raw == 4i32 {
            Some(DragResult::GrabBroken)
        } else if raw == 5i32 {
            Some(DragResult::Error)
        } else {
            None
        }
    }

    /// Round-trip law: converting a tag to its foreign integer and back
    /// yields the original tag.
    pub proof fn lemma_round_trip(self)
        ensures
            Self::from_raw_spec(self.to_raw_spec()) == Some(self),
    {
    }

    /// Reverse round-trip law: a foreign integer that reads back as a tag is
    /// exactly that tag's foreign integer.
    pub proof fn lemma_raw_round_trip(raw: i32)
        ensures
            Self::from_raw_spec(raw) matches Some(t) ==> t.to_raw_spec() == raw,
    {
    }
}

/// Placement of scroll arrows in scrolling menus.
#[derive(Clone, Copy, PartialEq, Eq, Structural, Debug)]
pub enum ArrowPlacement {
    Both,
    Start,
    End,
}

impl ArrowPlacement {
    /// The foreign integer constant this tag stands for.
    pub open spec fn to_raw_spec(self) -> i32 {
        match self {
            ArrowPlacement::Both => 0i32,
            ArrowPlacement::Start => 1i32,
            ArrowPlacement::End => 2i32,
        }
    }

    /// The tag a foreign integer stands for, if any.
    pub open spec fn from_raw_spec(raw: i32) -> Option<ArrowPlacement> {
        if raw == 0i32 {
            Some(ArrowPlacement::Both)
        } else if raw == 1i32 {
            Some(ArrowPlacement::Start)
        } else if raw == 2i32 {
            Some(ArrowPlacement::End)
        } else {
            None
        }
    }

    pub fn to_raw(self) -> (r: i32)
        ensures
            r == self.to_raw_spec(),
    {
        match self {
            ArrowPlacement::Both => 0i32,
            ArrowPlacement::Start => 1i32,
            ArrowPlacement::End => 2i32,
        }
    }

    pub fn from_raw(raw: i32) -> (r: Option<ArrowPlacement>)
        ensures
            r == Self::from_raw_spec(raw),
    {
        if raw == 0i32 {
            Some(ArrowPlacement::Both)
        } else if raw == 1i32 {
            Some(ArrowPlacement::Start)
        } else if raw == 2i32 {
            Some(ArrowPlacement::End)
        } else {
            None
        }
    }

    /// Round-trip law: converting a tag to its foreign integer and back
    /// yields the original tag.
    pub proof fn lemma_round_trip(self)
        ensures
            Self::from_raw_spec(self.to_raw_spec()) == Some(self),
    {
    }

    /// Reverse round-trip law: a foreign integer that reads back as a tag is
    /// exactly that tag's foreign integer.
    pub proof fn lemma_raw_round_trip(raw: i32)
        ensures
            Self::from_raw_spec(raw) matches Some(t) ==> t.to_raw_spec() == raw,
    {
    }
}

/// The direction an arrow widget points in.
#[derive(Clone, Copy, PartialEq, Eq, Structural, Debug)]
pub enum ArrowType {
    Up,
    Down,
    Left,
    Right,
    NoArrow,
}

impl ArrowType {
    /// The foreign integer constant this tag stands for.
    pub open spec fn to_raw_spec(self) -> i32 {
        match self {
            ArrowType::Up => 0i32,
            ArrowType::Down => 1i32,
            ArrowType::Left => 2i32,
            ArrowType::Right => 3i32,
            ArrowType::NoArrow => 4i32,
        }
    }

    /// The tag a foreign integer stands for, if any.
    pub open spec fn from_raw_spec(raw: i32) -> Option<ArrowType> {
        if raw == 0i32 {
            Some(ArrowType::Up)
        } else if raw == 1i32 {
            Some(ArrowType::Down)
        } else if raw == 2i32 {
            Some(ArrowType::Left)
        } else if raw == 3i32 {
            Some(ArrowType::Right)
        } else if raw == 4i32 {
            Some(ArrowType::NoArrow)
        } else {
            None
        }
    }

    pub fn to_raw(self) -> (r: i32)
        ensures
            r == self.to_raw_spec(),
    {
        match self {
            ArrowType::Up => 0i32,
            ArrowType::Down => 1i32,
            ArrowType::Left => 2i32,
            ArrowType::Right => 3i32,
            ArrowType::NoArrow => 4i32,
        }
    }

    pub fn from_raw(raw: i32) -> (r: Option<ArrowType>)
        ensures
            r == Self::from_raw_spec(raw),
    {
        if raw == 0i32 {
            Some(ArrowType::Up)
        } else if raw == 1i32 {
            Some(ArrowType::Down)
        } else if raw == 2i32 {
            Some(ArrowType::Left)
        } else if raw == 3i32 {
            Some(ArrowType::Right)
        } else if raw == 4i32 {
            Some(ArrowType::NoArrow)
        } else {
            None
        }
    }

    /// Round-trip law: converting a tag to its foreign integer and back
    /// yields the original tag.
    pub proof fn lemma_round_trip(self)
        ensures
            Self::from_raw_spec(self.to_raw_spec()) == Some(self),
    {
    }

    /// Reverse round-trip law: a foreign integer that reads back as a tag is
    /// exactly that tag's foreign integer.
    pub proof fn lemma_raw_round_trip(raw: i32)
        ensures
            Self::from_raw_spec(raw) matches Some(t) ==> t.to_raw_spec() == raw,
    {
    }
}

/// Units of deletion in text widgets.
#[derive(Clone, Copy, PartialEq, Eq, Structural, Debug)]
pub enum DeleteType {
    Chars,
    WordsEnd,
    Words,
    DisplayLines,
    DisplayLineEnd,
    ParagraphEnds,
    Paragraphs,
    Whitespac,
}

impl DeleteType {
    /// The foreign integer constant this tag stands for.
    pub open spec fn to_raw_spec(self) -> i32 {
        match self {
            DeleteType::Chars => 0i32,
            DeleteType::WordsEnd => 1i32,
            DeleteType::Words => 2i32,
            DeleteType::DisplayLines => 3i32,
            DeleteType::DisplayLineEnd => 4i32,
            DeleteType::ParagraphEnds => 5i32,
            DeleteType::Paragraphs => 6i32,
            DeleteType::Whitespac => 7i32,
        }
    }

    /// The tag a foreign integer stands for, if any.
    pub open spec fn from_raw_spec(raw: i32) -> Option<DeleteType> {
        if raw == 0i32 {
            Some(DeleteType::Chars)
        } else if raw == 1i32 {
            Some(DeleteType::WordsEnd)
        } else if raw == 2i32 {
            Some(DeleteType::Words)
        } else if raw == 3i32 {
            Some(DeleteType::DisplayLines)
        } else if raw == 4i32 {
            Some(DeleteType::DisplayLineEnd)
        } else if raw == 5i32 {
            Some(DeleteType::ParagraphEnds)
        } else if raw == 6i32 {
            Some(DeleteType::Paragraphs)
        } else if raw == 7i32 {
            Some(DeleteType::Whitespac)
        } else {
            None
        }
    }

    pub fn to_raw(self) -> (r: i32)
        ensures
            r == self.to_raw_spec(),
    {
        match self {
            DeleteType::Chars => 0i32,
            DeleteType::WordsEnd => 1i32,
            DeleteType::Words => 2i32,
            DeleteType::DisplayLines => 3i32,
            DeleteType::DisplayLineEnd => 4i32,
            DeleteType::ParagraphEnds => 5i32,
            DeleteType::Paragraphs => 6i32,
            DeleteType::Whitespac => 7i32,
        }
    }

    pub fn from_raw(raw: i32) -> (r: Option<DeleteType>)
        ensures
            r == Self::from_raw_spec(raw),
    {
        if raw == 0i32 {
            Some(DeleteType::Chars)
        } else if raw == 1i32 {
            Some(DeleteType::WordsEnd)
        } else if raw == 2i32 {
            Some(DeleteType::Words)
        } else if raw == 3i32 {
            Some(DeleteType::DisplayLines)
        } else if raw == 4i32 {
            Some(DeleteType::DisplayLineEnd)
        } else if raw == 5i32 {
            Some(DeleteType::ParagraphEnds)
        } else if raw == 6i32 {
            Some(DeleteType::Paragraphs)
        } else if raw == 7i32 {
            Some(DeleteType::Whitespac)
        } else {
            None
        }
    }

    /// Round-trip law: converting a tag to its foreign integer and back
    /// yields the original tag.
    pub proof fn lemma_round_trip(self)
        ensures
            Self::from_raw_spec(self.to_raw_spec()) == Some(self),
    {
    }

    /// Reverse round-trip law: a foreign integer that reads back as a tag is
    /// exactly that tag's foreign integer.
    pub proof fn lemma_raw_round_trip(raw: i32)
        ensures
            Self::from_raw_spec(raw) matches Some(t) ==> t.to_raw_spec() == raw,
    {
    }
}

/// Styles of the expanders drawn by a tree view.
#[derive(Clone, Copy, PartialEq, Eq, Structural, Debug)]
pub enum ExpanderStyle {
    Collapsed,
    SemiCollapsed,
    SemiExpanded,
    Expanded,
}

impl ExpanderStyle {
    /// The foreign integer constant this tag stands for.
    pub open spec fn to_raw_spec(self) -> i32 {
        match self {
            ExpanderStyle::Collapsed => 0i32,
            ExpanderStyle::SemiCollapsed => 1i32,
            ExpanderStyle::SemiExpanded => 2i32,
            ExpanderStyle::Expanded => 3i32,
        }
    }

    /// The tag a foreign integer stands for, if any.
    pub open spec fn from_raw_spec(raw: i32) -> Option<ExpanderStyle> {
        if raw == 0i32 {
            Some(ExpanderStyle::Collapsed)
        } else if raw == 1i32 {
            Some(ExpanderStyle::SemiCollapsed)
        } else if raw == 2i32 {
            Some(ExpanderStyle::SemiExpanded)
        } else if raw == 3i32 {
            Some(ExpanderStyle::Expanded)
        } else {
            None
        }
    }

    pub fn to_raw(self) -> (r: i32)
        ensures
            r == self.to_raw_spec(),
    {
        match self {
            ExpanderStyle::Collapsed => 0i32,
            ExpanderStyle::SemiCollapsed => 1i32,
            ExpanderStyle::SemiExpanded => 2i32,
            ExpanderStyle::Expanded => 3i32,
        }
    }

    pub fn from_raw(raw: i32) -> (r: Option<ExpanderStyle>)
        ensures
            r == Self::from_raw_spec(raw),
    {
        if raw == 0i32 {
            Some(ExpanderStyle::Collapsed)
        } else if raw == 1i32 {
            Some(ExpanderStyle::SemiCollapsed)
        } else if raw == 2i32 {
            Some(ExpanderStyle::SemiExpanded)
        } else if raw == 3i32 {
            Some(ExpanderStyle::Expanded)
        } else {
            None
        }
    }

    /// Round-trip law: converting a tag to its foreign integer and back
    /// yields the original tag.
    pub proof fn lemma_round_trip(self)
        ensures
            Self::from_raw_spec(self.to_raw_spec()) == Some(self),
    {
    }

    /// Reverse round-trip law: a foreign integer that reads back as a tag is
    /// exactly that tag's foreign integer.
    pub proof fn lemma_raw_round_trip(raw: i32)
        ensures
            Self::from_raw_spec(raw) matches Some(t) ==> t.to_raw_spec() == raw,
    {
    }
}

/// How an input method shows preedit text.
#[derive(Clone, Copy, PartialEq, Eq, Structural, Debug)]
pub enum IMPreeditStyle {
    Nothing,
    Callback,
    NoPreedit,
}

impl IMPreeditStyle {
    /// The foreign integer constant this tag stands for.
    pub open spec fn to_raw_spec(self) -> i32 {
        match self {
            IMPreeditStyle::Nothing => 0i32,
            IMPreeditStyle::Callback => 1i32,
            IMPreeditStyle::NoPreedit => 2i32,
        }
    }

    /// The tag a foreign integer stands for, if any.
    pub open spec fn from_raw_spec(raw: i32) -> Option<IMPreeditStyle> {
        if raw == 0i32 {
            Some(IMPreeditStyle::Nothing)
        } else if raw == 1i32 {
            Some(IMPreeditStyle::Callback)
        } else if raw == 2i32 {
            Some(IMPreeditStyle::NoPreedit)
        } else {
            None
        }
    }

    pub fn to_raw(self) -> (r: i32)
        ensures
            r == self.to_raw_spec(),
    {
        match self {
            IMPreeditStyle::Nothing => 0i32,
            IMPreeditStyle::Callback => 1i32,
            IMPreeditStyle::NoPreedit => 2i32,
        }
    }

    pub fn from_raw(raw: i32) -> (r: Option<IMPreeditStyle>)
        ensures
            r == Self::from_raw_spec(raw),
    {
        if raw == 0i32 {
            Some(IMPreeditStyle::Nothing)
        } else if raw == 1i32 {
            Some(IMPreeditStyle::Callback)
        } else if raw == 2i32 {
            Some(IMPreeditStyle::NoPreedit)
        } else {
            None
        }
    }

    /// Round-trip law: converting a tag to its foreign integer and back
    /// yields the original tag.
    pub proof fn lemma_round_trip(self)
        ensures
            Self::from_raw_spec(self.to_raw_spec()) == Some(self),
    {
    }

    /// Reverse round-trip law: a foreign integer that reads back as a tag is
    /// exactly that tag's foreign integer.
    pub proof fn lemma_raw_round_trip(raw: i32)
        ensures
            Self::from_raw_spec(raw) matches Some(t) ==> t.to_raw_spec() == raw,
    {
    }
}

/// How an input method shows status information.
#[derive(Clone, Copy, PartialEq, Eq, Structural, Debug)]
pub enum IMStatusStyle {
    Nothing,
    Callback,
    NoStatus,
}

impl IMStatusStyle {
    /// The foreign integer constant this tag stands for.
    pub open spec fn to_raw_spec(self) -> i32 {
        match self {
            IMStatusStyle::Nothing => 0i32,
            IMStatusStyle::Callback => 1i32,
            IMStatusStyle::NoStatus => 2i32,
        }
    }

    /// The tag a foreign integer stands for, if any.
    pub open spec fn from_raw_spec(raw: i32) -> Option<IMStatusStyle> {
        if raw == 0i32 {
            Some(IMStatusStyle::Nothing)
        } else if raw == 1i32 {
            Some(IMStatusStyle::Callback)
        } else if raw == 2i32 {
            Some(IMStatusStyle::NoStatus)
        } else {
            None
        }
    }

    pub fn to_raw(self) -> (r: i32)
        ensures
            r == self.to_raw_spec(),
    {
        match self {
            IMStatusStyle::Nothing => 0i32,
            IMStatusStyle::Callback => 1i32,
            IMStatusStyle::NoStatus => 2i32,
        }
    }

    pub fn from_raw(raw: i32) -> (r: Option<IMStatusStyle>)
        ensures
            r == Self::from_raw_spec(raw),
    {
        if raw == 0i32 {
            Some(IMStatusStyle::Nothing)
        } else if raw == 1i32 {
            Some(IMStatusStyle::Callback)
        } else if raw == 2i32 {
            Some(IMStatusStyle::NoStatus)
        } else {
            None
        }
    }

    /// Round-trip law: converting a tag to its foreign integer and back
    /// yields the original tag.
    pub proof fn lemma_round_trip(self)
        ensures
            Self::from_raw_spec(self.to_raw_spec()) == Some(self),
    {
    }

    /// Reverse round-trip law: a foreign integer that reads back as a tag is
    /// exactly that tag's foreign integer.
    pub proof fn lemma_raw_round_trip(raw: i32)
        ensures
            Self::from_raw_spec(raw) matches Some(t) ==> t.to_raw_spec() == raw,
    {
    }
}

/// Justification of text inside a label.
#[derive(Clone, Copy, PartialEq, Eq, Structural, Debug)]
pub enum Justification {
    Left,
    Right,
    Center,
    Fill,
}

impl Justification {
    /// The foreign integer constant this tag stands for.
    pub open spec fn to_raw_spec(self) -> i32 {
        match self {
            Justification::Left => 0i32,
            Justification::Right => 1i32,
            Justification::Center => 2i32,
            Justification::Fill => 3i32,
        }
    }

    /// The tag a foreign integer stands for, if any.
    pub open spec fn from_raw_spec(raw: i32) -> Option<Justification> {
        if raw == 0i32 {
            Some(Justification::Left)
        } else if raw == 1i32 {
            Some(Justification::Right)
        } else if raw == 2i32 {
            Some(Justification::Center)
        } else if raw == 3i32 {
            Some(Justification::Fill)
        } else {
            None
        }
    }

    pub fn to_raw(self) -> (r: i32)
        ensures
            r == self.to_raw_spec(),
    {
        match self {
            Justification::Left => 0i32,
            Justification::Right => 1i32,
            Justification::Center => 2i32,
            Justification::Fill => 3i32,
        }
    }

    pub fn from_raw(raw: i32) -> (r: Option<Justification>)
        ensures
            r == Self::from_raw_spec(raw),
    {
        if raw == 0i32 {
            Some(Justification::Left)
        } else if raw == 1i32 {
            Some(Justification::Right)
        } else if raw == 2i32 {
            Some(Justification::Center)
        } else if raw == 3i32 {
            Some(Justification::Fill)
        } else {
            None
        }
    }

    /// Round-trip law: converting a tag to its foreign integer and back
    /// yields the original tag.
    pub proof fn lemma_round_trip(self)
        ensures
            Self::from_raw_spec(self.to_raw_spec()) == Some(self),
    {
    }

    /// Reverse round-trip law: a foreign integer that reads back as a tag is
    /// exactly that tag's foreign integer.
    pub proof fn lemma_raw_round_trip(raw: i32)
        ensures
            Self::from_raw_spec(raw) matches Some(t) ==> t.to_raw_spec() == raw,
    {
    }
}

/// Units of cursor movement in text widgets.
#[derive(Clone, Copy, PartialEq, Eq, Structural, Debug)]
pub enum MovementStep {
    LogicalPosition,
    VisualPositions,
    Words,
    DisplayLines,
    DisplayLineEnds,
    Paragraphs,
    ParagraphEnds,
    Pages,
    BufferEnds,
    HorizontalPages,
}

impl MovementStep {
    /// The foreign integer constant this tag stands for.
    pub open spec fn to_raw_spec(self) -> i32 {
        match self {
            MovementStep::LogicalPosition => 0i32,
            MovementStep::VisualPositions => 1i32,
            MovementStep::Words => 2i32,
            MovementStep::DisplayLines => 3i32,
            MovementStep::DisplayLineEnds => 4i32,
            MovementStep::Paragraphs => 5i32,
            MovementStep::ParagraphEnds => 6i32,
            MovementStep::Pages => 7i32,
            MovementStep::BufferEnds => 8i32,
            MovementStep::HorizontalPages => 9i32,
        }
    }

    /// The tag a foreign integer stands for, if any.
    pub open spec fn from_raw_spec(raw: i32) -> Option<MovementStep> {
        if raw == 0i32 {
            Some(MovementStep::LogicalPosition)
        } else if raw == 1i32 {
            Some(MovementStep::VisualPositions)
        } else if raw == 2i32 {
            Some(MovementStep::Words)
        } else if raw == 3i32 {
            Some(MovementStep::DisplayLines)
        } else if raw == 4i32 {
            Some(MovementStep::DisplayLineEnds)
        } else if raw == 5i32 {
            Some(MovementStep::Paragraphs)
        } else if raw == 6i32 {
            Some(MovementStep::ParagraphEnds)
        } else if raw == 7i32 {
            Some(MovementStep::Pages)
        } else if raw == 8i32 {
            Some(MovementStep::BufferEnds)
        } else if raw == 9i32 {
            Some(MovementStep::HorizontalPages)
        } else {
            None
        }
    }

    pub fn to_raw(self) -> (r: i32)
        ensures
            r == self.to_raw_spec(),
    {
        match self {
            MovementStep::LogicalPosition => 0i32,
            MovementStep::VisualPositions => 1i32,
            MovementStep::Words => 2i32,
            MovementStep::DisplayLines => 3i32,
            MovementStep::DisplayLineEnds => 4i32,
            MovementStep::Paragraphs => 5i32,
            MovementStep::ParagraphEnds => 6i32,
            MovementStep::Pages => 7i32,
            MovementStep::BufferEnds => 8i32,
            MovementStep::HorizontalPages => 9i32,
        }
    }

    pub fn from_raw(raw: i32) -> (r: Option<MovementStep>)
        ensures
            r == Self::from_raw_spec(raw),
    {
        if raw == 0i32 {
            Some(MovementStep::LogicalPosition)
        } else if raw == 1i32 {
            Some(MovementStep::VisualPositions)
        } else if raw == 2i32 {
            Some(MovementStep::Words)
        } else if raw == 3i32 {
            Some(MovementStep::DisplayLines)
        } else if raw == 4i32 {
            Some(MovementStep::DisplayLineEnds)
        } else if raw == 5i32 {
            Some(MovementStep::Paragraphs)
        } else if raw == 6i32 {
            Some(MovementStep::ParagraphEnds)
        } else if raw == 7i32 {
            Some(MovementStep::Pages)
        } else if raw == 8i32 {
            Some(MovementStep::BufferEnds)
        } else if raw == 9i32 {
            Some(MovementStep::HorizontalPages)
        } else {
            None
        }
    }

    /// Round-trip law: converting a tag to its foreign integer and back
    /// yields the original tag.
    pub proof fn lemma_round_trip(self)
        ensures
            Self::from_raw_spec(self.to_raw_spec()) == Some(self),
    {
    }

    /// Reverse round-trip law: a foreign integer that reads back as a tag is
    /// exactly that tag's foreign integer.
    pub proof fn lemma_raw_round_trip(raw: i32)
        ensures
            Self::from_raw_spec(raw) matches Some(t) ==> t.to_raw_spec() == raw,
    {
    }
}

/// Whether a child is packed from the start or the end of a box.
#[derive(Clone, Copy, PartialEq, Eq, Structural, Debug)]
pub enum PackType {
    Start,
    End,
}

impl PackType {
    /// The foreign integer constant this tag stands for.
    pub open spec fn to_raw_spec(self) -> i32 {
        match self {
            PackType::Start => 0i32,
            PackType::End => 1i32,
        }
    }

    /// The tag a foreign integer stands for, if any.
    pub open spec fn from_raw_spec(raw: i32) -> Option<PackType> {
        if raw == 0i32 {
            Some(PackType::Start)
        } else if raw == 1i32 {
            Some(PackType::End)
        } else {
            None
        }
    }

    pub fn to_raw(self) -> (r: i32)
        ensures
            r == self.to_raw_spec(),
    {
        match self {
            PackType::Start => 0i32,
            PackType::End => 1i32,
        }
    }

    pub fn from_raw(raw: i32) -> (r: Option<PackType>)
        ensures
            r == Self::from_raw_spec(raw),
    {
        if raw == 0i32 {
            Some(PackType::Start)
        } else if raw == 1i32 {
            Some(PackType::End)
        } else {
            None
        }
    }

    /// Round-trip law: converting a tag to its foreign integer and back
    /// yields the original tag.
    pub proof fn lemma_round_trip(self)
        ensures
            Self::from_raw_spec(self.to_raw_spec()) == Some(self),
    {
    }

    /// Reverse round-trip law: a foreign integer that reads back as a tag is
    /// exactly that tag's foreign integer.
    pub proof fn lemma_raw_round_trip(raw: i32)
        ensures
            Self::from_raw_spec(raw) matches Some(t) ==> t.to_raw_spec() == raw,
    {
    }
}

/// Priorities of style matches along a widget path.
#[derive(Clone, Copy, PartialEq, Eq, Structural, Debug)]
pub enum PathPriorityType {
    Lowest,
    Gtk,
    Application,
    Theme,
    Rc,
    Highest,
}

impl PathPriorityType {
    /// The foreign integer constant this tag stands for.
    pub open spec fn to_raw_spec(self) -> i32 {
        match self {
            PathPriorityType::Lowest => 0i32,
            PathPriorityType::Gtk => 4i32,
            PathPriorityType::Application => 8i32,
            PathPriorityType::Theme => 10i32,
            PathPriorityType::Rc => 12i32,
            PathPriorityType::Highest => 15i32,
        }
    }

    /// The tag a foreign integer stands for, if any.
    pub open spec fn from_raw_spec(raw: i32) -> Option<PathPriorityType> {
        if raw == 0i32 {
            Some(PathPriorityType::Lowest)
        } else if raw == 4i32 {
            Some(PathPriorityType::Gtk)
        } else if raw == 8i32 {
            Some(PathPriorityType::Application)
        } else if raw == 10i32 {
            Some(PathPriorityType::Theme)
        } else if raw == 12i32 {
            Some(PathPriorityType::Rc)
        } else if raw == 15i32 {
            Some(PathPriorityType::Highest)
        } else {
            None
        }
    }

    pub fn to_raw(self) -> (r: i32)
        ensures
            r == self.to_raw_spec(),
    {
        match self {
            PathPriorityType::Lowest => 0i32,
            PathPriorityType::Gtk => 4i32,
            PathPriorityType::Application => 8i32,
            PathPriorityType::Theme => 10i32,
            PathPriorityType::Rc => 12i32,
            PathPriorityType::Highest => 15i32,
        }
    }

    pub fn from_raw(raw: i32) -> (r: Option<PathPriorityType>)
        ensures
            r == Self::from_raw_spec(raw),
    {
        if raw == 0i32 {
            Some(PathPriorityType::Lowest)
        } else if raw == 4i32 {
            Some(PathPriorityType::Gtk)
        } else if raw == 8i32 {
            Some(PathPriorityType::Application)
        } else if raw == 10i32 {
            Some(PathPriorityType::Theme)
        } else if raw == 12i32 {
            Some(PathPriorityType::Rc)
        } else if raw == 15i32 {
            Some(PathPriorityType::Highest)
        } else {
            None
        }
    }

    /// Round-trip law: converting a tag to its foreign integer and back
    /// yields the original tag.
    pub proof fn lemma_round_trip(self)
        ensures
            Self::from_raw_spec(self.to_raw_spec()) == Some(self),
    {
    }

    /// Reverse round-trip law: a foreign integer that reads back as a tag is
    /// exactly that tag's foreign integer.
    pub proof fn lemma_raw_round_trip(raw: i32)
        ensures
            Self::from_raw_spec(raw) matches Some(t) ==> t.to_raw_spec() == raw,
    {
    }
}

/// Kinds of widget path.
#[derive(Clone, Copy, PartialEq, Eq, Structural, Debug)]
pub enum PathType {
    Widget,
    WidgetClass,
    Class,
}

impl PathType {
    /// The foreign integer constant this tag stands for.
    pub open spec fn to_raw_spec(self) -> i32 {
        match self {
            PathType::Widget => 0i32,
            PathType::WidgetClass => 1i32,
            PathType::Class => 2i32,
        }
    }

    /// The tag a foreign integer stands for, if any.
    pub open spec fn from_raw_spec(raw: i32) -> Option<PathType> {
        if raw == 0i32 {
            Some(PathType::Widget)
        } else if raw == 1i32 {
            Some(PathType::WidgetClass)
        } else if raw == 2i32 {
            Some(PathType::Class)
        } else {
            None
        }
    }

    pub fn to_raw(self) -> (r: i32)
        ensures
            r == self.to_raw_spec(),
    {
        match self {
            PathType::Widget => 0i32,
            PathType::WidgetClass => 1i32,
            PathType::Class => 2i32,
        }
    }

    pub fn from_raw(raw: i32) -> (r: Option<PathType>)
        ensures
            r == Self::from_raw_spec(raw),
    {
        if raw == 0i32 {
            Some(PathType::Widget)
        } else if raw == 1i32 {
            Some(PathType::WidgetClass)
        } else if raw == 2i32 {
            Some(PathType::Class)
        } else {
            None
        }
    }

    /// Round-trip law: converting a tag to its foreign integer and back
    /// yields the original tag.
    pub proof fn lemma_round_trip(self)
        ensures
            Self::from_raw_spec(self.to_raw_spec()) == Some(self),
    {
    }

    /// Reverse round-trip law: a foreign integer that reads back as a tag is
    /// exactly that tag's foreign integer.
    pub proof fn lemma_raw_round_trip(raw: i32)
        ensures
            Self::from_raw_spec(raw) matches Some(t) ==> t.to_raw_spec() == raw,
    {
    }
}

/// When a scroll bar is visible.
#[derive(Clone, Copy, PartialEq, Eq, Structural, Debug)]
pub enum PolicyType {
    Always,
    Automatic,
    Never,
}

impl PolicyType {
    /// The foreign integer constant this tag stands for.
    pub open spec fn to_raw_spec(self) -> i32 {
        match self {
            PolicyType::Always => 0i32,
            PolicyType::Automatic => 1i32,
            PolicyType::Never => 2i32,
        }
    }

    /// The tag a foreign integer stands for, if any.
    pub open spec fn from_raw_spec(raw: i32) -> Option<PolicyType> {
        if raw == 0i32 {
            Some(PolicyType::Always)
        } else if raw == 1i32 {
            Some(PolicyType::Automatic)
        } else if raw == 2i32 {
            Some(PolicyType::Never)
        } else {
            None
        }
    }

    pub fn to_raw(self) -> (r: i32)
        ensures
            r == self.to_raw_spec(),
    {
        match self {
            PolicyType::Always => 0i32,
            PolicyType::Automatic => 1i32,
            PolicyType::Never => 2i32,
        }
    }

    pub fn from_raw(raw: i32) -> (r: Option<PolicyType>)
        ensures
            r == Self::from_raw_spec(raw),
    {
        if raw == 0i32 {
            Some(PolicyType::Always)
        } else if raw == 1i32 {
            Some(PolicyType::Automatic)
        } else if raw == 2i32 {
            Some(PolicyType::Never)
        } else {
            None
        }
    }

    /// Round-trip law: converting a tag to its foreign integer and back
    /// yields the original tag.
    pub proof fn lemma_round_trip(self)
        ensures
            Self::from_raw_spec(self.to_raw_spec()) == Some(self),
    {
    }

    /// Reverse round-trip law: a foreign integer that reads back as a tag is
    /// exactly that tag's foreign integer.
    pub proof fn lemma_raw_round_trip(raw: i32)
        ensures
            Self::from_raw_spec(raw) matches Some(t) ==> t.to_raw_spec() == raw,
    {
    }
}

/// The edge of a widget a feature is positioned at.
#[derive(Clone, Copy, PartialEq, Eq, Structural, Debug)]
pub enum PositionType {
    Left,
    Right,
    Top,
    Bottom,
}

impl PositionType {
    /// The foreign integer constant this tag stands for.
    pub open spec fn to_raw_spec(self) -> i32 {
        match self {
            PositionType::Left => 0i32,
            PositionType::Right => 1i32,
            PositionType::Top => 2i32,
            PositionType::Bottom => 3i32,
        }
    }

    /// The tag a foreign integer stands for, if any.
    pub open spec fn from_raw_spec(raw: i32) -> Option<PositionType> {
        if raw == 0i32 {
            Some(PositionType::Left)
        } else if raw == 1i32 {
            Some(PositionType::Right)
        } else if raw == 2i32 {
            Some(PositionType::Top)
        } else if raw == 3i32 {
            Some(PositionType::Bottom)
        } else {
            None
        }
    }

    pub fn to_raw(self) -> (r: i32)
        ensures
            r == self.to_raw_spec(),
    {
        match self {
            PositionType::Left => 0i32,
            PositionType::Right => 1i32,
            PositionType::Top => 2i32,
            PositionType::Bottom => 3i32,
        }
    }

    pub fn from_raw(raw: i32) -> (r: Option<PositionType>)
        ensures
            r == Self::from_raw_spec(raw),
    {
        if raw == 0i32 {
            Some(PositionType::Left)
        } else if raw == 1i32 {
            Some(PositionType::Right)
        } else if raw == 2i32 {
            Some(PositionType::Top)
        } else if raw == 3i32 {
            Some(PositionType::Bottom)
        } else {
            None
        }
    }

    /// Round-trip law: converting a tag to its foreign integer and back
    /// yields the original tag.
    pub proof fn lemma_round_trip(self)
        ensures
            Self::from_raw_spec(self.to_raw_spec()) == Some(self),
    {
    }

    /// Reverse round-trip law: a foreign integer that reads back as a tag is
    /// exactly that tag's foreign integer.
    pub proof fn lemma_raw_round_trip(raw: i32)
        ensures
            Self::from_raw_spec(raw) matches Some(t) ==> t.to_raw_spec() == raw,
    {
    }
}

/// The relief drawn around a button.
#[derive(Clone, Copy, PartialEq, Eq, Structural, Debug)]
pub enum ReliefStyle {
    Normal,
    Half,
    NoRelief,
}

impl ReliefStyle {
    /// The foreign integer constant this tag stands for.
    pub open spec fn to_raw_spec(self) -> i32 {
        match self {
            ReliefStyle::Normal => 0i32,
            ReliefStyle::Half => 1i32,
            ReliefStyle::NoRelief => 2i32,
        }
    }

    /// The tag a foreign integer stands for, if any.
    pub open spec fn from_raw_spec(raw: i32) -> Option<ReliefStyle> {
        if raw == 0i32 {
            Some(ReliefStyle::Normal)
        } else if raw == 1i32 {
            Some(ReliefStyle::Half)
        } else if raw == 2i32 {
            Some(ReliefStyle::NoRelief)
        } else {
            None
        }
    }

    pub fn to_raw(self) -> (r: i32)
        ensures
            r == self.to_raw_spec(),
    {
        match self {
            ReliefStyle::Normal => 0i32,
            ReliefStyle::Half => 1i32,
            ReliefStyle::NoRelief => 2i32,
        }
    }

    pub fn from_raw(raw: i32) -> (r: Option<ReliefStyle>)
        ensures
            r == Self::from_raw_spec(raw),
    {
        if raw == 0i32 {
            Some(ReliefStyle::Normal)
        } else if raw == 1i32 {
            Some(ReliefStyle::Half)
        } else if raw == 2i32 {
            Some(ReliefStyle::NoRelief)
        } else {
            None
        }
    }

    /// Round-trip law: converting a tag to its foreign integer and back
    /// yields the original tag.
    pub proof fn lemma_round_trip(self)
        ensures
            Self::from_raw_spec(self.to_raw_spec()) == Some(self),
    {
    }

    /// Reverse round-trip law: a foreign integer that reads back as a tag is
    /// exactly that tag's foreign integer.
    pub proof fn lemma_raw_round_trip(raw: i32)
        ensures
            Self::from_raw_spec(raw) matches Some(t) ==> t.to_raw_spec() == raw,
    {
    }
}

/// Units of a scrolling step.
#[derive(Clone, Copy, PartialEq, Eq, Structural, Debug)]
pub enum ScrollStep {
    Steps,
    Pages,
    Ends,
    HorizontalSteps,
    HorizontalPages,
    HorizontalEnds,
}

impl ScrollStep {
    /// The foreign integer constant this tag stands for.
    pub open spec fn to_raw_spec(self) -> i32 {
        match self {
            ScrollStep::Steps => 0i32,
            ScrollStep::Pages => 1i32,
            ScrollStep::Ends => 2i32,
            ScrollStep::HorizontalSteps => 3i32,
            ScrollStep::HorizontalPages => 4i32,
            ScrollStep::HorizontalEnds => 5i32,
        }
    }

    /// The tag a foreign integer stands for, if any.
    pub open spec fn from_raw_spec(raw: i32) -> Option<ScrollStep> {
        if raw == 0i32 {
            Some(ScrollStep::Steps)
        } else if raw == 1i32 {
            Some(ScrollStep::Pages)
        } else if raw == 2i32 {
            Some(ScrollStep::Ends)
        } else if raw == 3i32 {
            Some(ScrollStep::HorizontalSteps)
        } else if raw == 4i32 {
            Some(ScrollStep::HorizontalPages)
        } else if raw == 5i32 {
            Some(ScrollStep::HorizontalEnds)
        } else {
            None
        }
    }

    pub fn to_raw(self) -> (r: i32)
        ensures
            r == self.to_raw_spec(),
    {
        match self {
            ScrollStep::Steps => 0i32,
            ScrollStep::Pages => 1i32,
            ScrollStep::Ends => 2i32,
            ScrollStep::HorizontalSteps => 3i32,
            ScrollStep::HorizontalPages => 4i32,
            ScrollStep::HorizontalEnds => 5i32,
        }
    }

    pub fn from_raw(raw: i32) -> (r: Option<ScrollStep>)
        ensures
            r == Self::from_raw_spec(raw),
    {
        if raw == 0i32 {
            Some(ScrollStep::Steps)
        } else if raw == 1i32 {
            Some(ScrollStep::Pages)
        } else if raw == 2i32 {
            Some(ScrollStep::Ends)
        } else if raw == 3i32 {
            Some(ScrollStep::HorizontalSteps)
        } else if raw == 4i32 {
            Some(ScrollStep::HorizontalPages)
        } else if raw == 5i32 {
            Some(ScrollStep::HorizontalEnds)
        } else {
            None
        }
    }

    /// Round-trip law: converting a tag to its foreign integer and back
    /// yields the original tag.
    pub proof fn lemma_round_trip(self)
        ensures
            Self::from_raw_spec(self.to_raw_spec()) == Some(self),
    {
    }

    /// Reverse round-trip law: a foreign integer that reads back as a tag is
    /// exactly that tag's foreign integer.
    pub proof fn lemma_raw_round_trip(raw: i32)
        ensures
            Self::from_raw_spec(raw) matches Some(t) ==> t.to_raw_spec() == raw,
    {
    }
}

/// Kinds of scrolling request.
#[derive(Clone, Copy, PartialEq, Eq, Structural, Debug)]
pub enum ScrollType {
    NoScroll,
    Jump,
    StepBackward,
    StepForward,
    PageBackward,
    PageForward,
    StepUp,
    StepDown,
    PageUp,
    PageDown,
    StepLeft,
    StepRight,
    PageLeft,
    PageRight,
    Start,
    End,
}

impl ScrollType {
    /// The foreign integer constant this tag stands for.
    pub open spec fn to_raw_spec(self) -> i32 {
        match self {
            ScrollType::NoScroll => 0i32,
            ScrollType::Jump => 1i32,
            ScrollType::StepBackward => 2i32,
            ScrollType::StepForward => 3i32,
            ScrollType::PageBackward => 4i32,
            ScrollType::PageForward => 5i32,
            ScrollType::StepUp => 6i32,
            ScrollType::StepDown => 7i32,
            ScrollType::PageUp => 8i32,
            ScrollType::PageDown => 9i32,
            ScrollType::StepLeft => 10i32,
            ScrollType::StepRight => 11i32,
            ScrollType::PageLeft => 12i32,
            ScrollType::PageRight => 13i32,
            ScrollType::Start => 14i32,
            ScrollType::End => 15i32,
        }
    }

    /// The tag a foreign integer stands for, if any.
    pub open spec fn from_raw_spec(raw: i32) -> Option<ScrollType> {
        if raw == 0i32 {
            Some(ScrollType::NoScroll)
        } else if raw == 1i32 {
            Some(ScrollType::Jump)
        } else if raw == 2i32 {
            Some(ScrollType::StepBackward)
        } else if raw == 3i32 {
            Some(ScrollType::StepForward)
        } else if raw == 4i32 {
            Some(ScrollType::PageBackward)
        } else if raw == 5i32 {
            Some(ScrollType::PageForward)
        } else if raw == 6i32 {
            Some(ScrollType::StepUp)
        } else if raw == 7i32 {
            Some(ScrollType::StepDown)
        } else if raw == 8i32 {
            Some(ScrollType::PageUp)
        } else if raw == 9i32 {
            Some(ScrollType::PageDown)
        } else if raw == 10i32 {
            Some(ScrollType::StepLeft)
        } else if raw == 11i32 {
            Some(ScrollType::StepRight)
        } else if raw == 12i32 {
            Some(ScrollType::PageLeft)
        } else if raw == 13i32 {
            Some(ScrollType::PageRight)
        } else if raw == 14i32 {
            Some(ScrollType::Start)
        } else if raw == 15i32 {
            Some(ScrollType::End)
        } else {
            None
        }
    }

    pub fn to_raw(self) -> (r: i32)
        ensures
            r == self.to_raw_spec(),
    {
        match self {
            ScrollType::NoScroll => 0i32,
            ScrollType::Jump => 1i32,
            ScrollType::StepBackward => 2i32,
            ScrollType::StepForward => 3i32,
            ScrollType::PageBackward => 4i32,
            ScrollType::PageForward => 5i32,
            ScrollType::StepUp => 6i32,
            ScrollType::StepDown => 7i32,
            ScrollType::PageUp => 8i32,
            ScrollType::PageDown => 9i32,
            ScrollType::StepLeft => 10i32,
            ScrollType::StepRight => 11i32,
            ScrollType::PageLeft => 12i32,
            ScrollType::PageRight => 13i32,
            ScrollType::Start => 14i32,
            ScrollType::End => 15i32,
        }
    }

    pub fn from_raw(raw: i32) -> (r: Option<ScrollType>)
        ensures
            r == Self::from_raw_spec(raw),
    {
        if raw == 0i32 {
            Some(ScrollType::NoScroll)
        } else if raw == 1i32 {
            Some(ScrollType::Jump)
        } else if raw == 2i32 {
            Some(ScrollType::StepBackward)
        } else if raw == 3i32 {
            Some(ScrollType::StepForward)
        } else if raw == 4i32 {
            Some(ScrollType::PageBackward)
        } else if raw == 5i32 {
            Some(ScrollType::PageForward)
        } else if raw == 6i32 {
            Some(ScrollType::StepUp)
        } else if raw == 7i32 {
            Some(ScrollType::StepDown)
        } else if raw == 8i32 {
            Some(ScrollType::PageUp)
        } else if raw == 9i32 {
            Some(ScrollType::PageDown)
        } else if raw == 10i32 {
            Some(ScrollType::StepLeft)
        } else if raw == 11i32 {
            Some(ScrollType::StepRight)
        } else if raw == 12i32 {
            Some(ScrollType::PageLeft)
        } else if raw == 13i32 {
            Some(ScrollType::PageRight)
        } else if raw == 14i32 {
            Some(ScrollType::Start)
        } else if raw == 15i32 {
            Some(ScrollType::End)
        } else {
            None
        }
    }

    /// Round-trip law: converting a tag to its foreign integer and back
    /// yields the original tag.
    pub proof fn lemma_round_trip(self)
        ensures
            Self::from_raw_spec(self.to_raw_spec()) == Some(self),
    {
    }

    /// Reverse round-trip law: a foreign integer that reads back as a tag is
    /// exactly that tag's foreign integer.
    pub proof fn lemma_raw_round_trip(raw: i32)
        ensures
            Self::from_raw_spec(raw) matches Some(t) ==> t.to_raw_spec() == raw,
    {
    }
}

/// What selections a user may make in a list.
#[derive(Clone, Copy, PartialEq, Eq, Structural, Debug)]
pub enum SelectionMode {
    NoSelection,
    Single,
    Browse,
    Multiple,
}

impl SelectionMode {
    /// The foreign integer constant this tag stands for.
    pub open spec fn to_raw_spec(self) -> i32 {
        match self {
            SelectionMode::NoSelection => 0i32,
            SelectionMode::Single => 1i32,
            SelectionMode::Browse => 2i32,
            SelectionMode::Multiple => 3i32,
        }
    }

    /// The tag a foreign integer stands for, if any.
    pub open spec fn from_raw_spec(raw: i32) -> Option<SelectionMode> {
        if raw == 0i32 {
            Some(SelectionMode::NoSelection)
        } else if raw == 1i32 {
            Some(SelectionMode::Single)
        } else if raw == 2i32 {
            Some(SelectionMode::Browse)
        } else if raw == 3i32 {
            Some(SelectionMode::Multiple)
        } else {
            None
        }
    }

    pub fn to_raw(self) -> (r: i32)
        ensures
            r == self.to_raw_spec(),
    {
        match self {
            SelectionMode::NoSelection => 0i32,
            SelectionMode::Single => 1i32,
            SelectionMode::Browse => 2i32,
            SelectionMode::Multiple => 3i32,
        }
    }

    pub fn from_raw(raw: i32) -> (r: Option<SelectionMode>)
        ensures
            r == Self::from_raw_spec(raw),
    {
        if raw == 0i32 {
            Some(SelectionMode::NoSelection)
        } else if raw == 1i32 {
            Some(SelectionMode::Single)
        } else if raw == 2i32 {
            Some(SelectionMode::Browse)
        } else if raw == 3i32 {
            Some(SelectionMode::Multiple)
        } else {
            None
        }
    }

    /// Round-trip law: converting a tag to its foreign integer and back
    /// yields the original tag.
    pub proof fn lemma_round_trip(self)
        ensures
            Self::from_raw_spec(self.to_raw_spec()) == Some(self),
    {
    }

    /// Reverse round-trip law: a foreign integer that reads back as a tag is
    /// exactly that tag's foreign integer.
    pub proof fn lemma_raw_round_trip(raw: i32)
        ensures
            Self::from_raw_spec(raw) matches Some(t) ==> t.to_raw_spec() == raw,
    {
    }
}

/// Appearance of the outline drawn around contents.
#[derive(Clone, Copy, PartialEq, Eq, Structural, Debug)]
pub enum ShadowType {
    NoShadow,
    Im,
    Out,
    EtchedIn,
    EtchedOut,
}

impl ShadowType {
    /// The foreign integer constant this tag stands for.
    pub open spec fn to_raw_spec(self) -> i32 {
        match self {
            ShadowType::NoShadow => 0i32,
            ShadowType::Im => 1i32,
            ShadowType::Out => 2i32,
            ShadowType::EtchedIn => 3i32,
            ShadowType::EtchedOut => 4i32,
        }
    }

    /// The tag a foreign integer stands for, if any.
    pub open spec fn from_raw_spec(raw: i32) -> Option<ShadowType> {
        if raw == 0i32 {
            Some(ShadowType::NoShadow)
        } else if raw == 1i32 {
            Some(ShadowType::Im)
        } else if raw == 2i32 {
            Some(ShadowType::Out)
        } else if raw == 3i32 {
            Some(ShadowType::EtchedIn)
        } else if raw == 4i32 {
            Some(ShadowType::EtchedOut)
        } else {
            None
        }
    }

    pub fn to_raw(self) -> (r: i32)
        ensures
            r == self.to_raw_spec(),
    {
        match self {
            ShadowType::NoShadow => 0i32,
            ShadowType::Im => 1i32,
            ShadowType::Out => 2i32,
            ShadowType::EtchedIn => 3i32,
            ShadowType::EtchedOut => 4i32,
        }
    }

    pub fn from_raw(raw: i32) -> (r: Option<ShadowType>)
        ensures
            r == Self::from_raw_spec(raw),
    {
        if raw == 0i32 {
            Some(ShadowType::NoShadow)
        } else if raw == 1i32 {
            Some(ShadowType::Im)
        } else if raw == 2i32 {
            Some(ShadowType::Out)
        } else if raw == 3i32 {
            Some(ShadowType::EtchedIn)
        } else if raw == 4i32 {
            Some(ShadowType::EtchedOut)
        } else {
            None
        }
    }

    /// Round-trip law: converting a tag to its foreign integer and back
    /// yields the original tag.
    pub proof fn lemma_round_trip(self)
        ensures
            Self::from_raw_spec(self.to_raw_spec()) == Some(self),
    {
    }

    /// Reverse round-trip law: a foreign integer that reads back as a tag is
    /// exactly that tag's foreign integer.
    pub proof fn lemma_raw_round_trip(raw: i32)
        ensures
            Self::from_raw_spec(raw) matches Some(t) ==> t.to_raw_spec() == raw,
    {
    }
}

/// The drawing state of a widget.
#[derive(Clone, Copy, PartialEq, Eq, Structural, Debug)]
pub enum StateType {
    Normal,
    Active,
    Prelight,
    Selected,
    Insensitive,
    Inconsistent,
    Focused,
}

impl StateType {
    /// The foreign integer constant this tag stands for.
    pub open spec fn to_raw_spec(self) -> i32 {
        match self {
            StateType::Normal => 0i32,
            StateType::Active => 1i32,
            StateType::Prelight => 2i32,
            StateType::Selected => 3i32,
            StateType::Insensitive => 4i32,
            StateType::Inconsistent => 5i32,
            StateType::Focused => 6i32,
        }
    }

    /// The tag a foreign integer stands for, if any.
    pub open spec fn from_raw_spec(raw: i32) -> Option<StateType> {
        if raw == 0i32 {
            Some(StateType::Normal)
        } else if raw == 1i32 {
            Some(StateType::Active)
        } else if raw == 2i32 {
            Some(StateType::Prelight)
        } else if raw == 3i32 {
            Some(StateType::Selected)
        } else if raw == 4i32 {
            Some(StateType::Insensitive)
        } else if raw == 5i32 {
            Some(StateType::Inconsistent)
        } else if raw == 6i32 {
            Some(StateType::Focused)
        } else {
            None
        }
    }

    pub fn to_raw(self) -> (r: i32)
        ensures
            r == self.to_raw_spec(),
    {
        match self {
            StateType::Normal => 0i32,
            StateType::Active => 1i32,
            StateType::Prelight => 2i32,
            StateType::Selected => 3i32,
            StateType::Insensitive => 4i32,
            StateType::Inconsistent => 5i32,
            StateType::Focused => 6i32,
        }
    }

    pub fn from_raw(raw: i32) -> (r: Option<StateType>)
        ensures
            r == Self::from_raw_spec(raw),
    {
        if raw == 0i32 {
            Some(StateType::Normal)
        } else if raw == 1i32 {
            Some(StateType::Active)
        } else if raw == 2i32 {
            Some(StateType::Prelight)
        } else if raw == 3i32 {
            Some(StateType::Selected)
        } else if raw == 4i32 {
            Some(StateType::Insensitive)
        } else if raw == 5i32 {
            Some(StateType::Inconsistent)
        } else if raw == 6i32 {
            Some(StateType::Focused)
        } else {
            None
        }
    }

    /// Round-trip law: converting a tag to its foreign integer and back
    /// yields the original tag.
    pub proof fn lemma_round_trip(self)
        ensures
            Self::from_raw_spec(self.to_raw_spec()) == Some(self),
    {
    }

    /// Reverse round-trip law: a foreign integer that reads back as a tag is
    /// exactly that tag's foreign integer.
    pub proof fn lemma_raw_round_trip(raw: i32)
        ensures
            Self::from_raw_spec(raw) matches Some(t) ==> t.to_raw_spec() == raw,
    {
    }
}

/// Whether a toolbar shows icons, text, or both.
#[derive(Clone, Copy, PartialEq, Eq, Structural, Debug)]
pub enum ToolbarStyle {
    Icons,
    Text,
    Both,
    BothHoriz,
}

impl ToolbarStyle {
    /// The foreign integer constant this tag stands for.
    pub open spec fn to_raw_spec(self) -> i32 {
        match self {
            ToolbarStyle::Icons => 0i32,
            ToolbarStyle::Text => 1i32,
            ToolbarStyle::Both => 2i32,
            ToolbarStyle::BothHoriz => 3i32,
        }
    }

    /// The tag a foreign integer stands for, if any.
    pub open spec fn from_raw_spec(raw: i32) -> Option<ToolbarStyle> {
        if raw == 0i32 {
            Some(ToolbarStyle::Icons)
        } else if raw == 1i32 {
            Some(ToolbarStyle::Text)
        } else if raw == 2i32 {
            Some(ToolbarStyle::Both)
        } else if raw == 3i32 {
            Some(ToolbarStyle::BothHoriz)
        } else {
            None
        }
    }

    pub fn to_raw(self) -> (r: i32)
        ensures
            r == self.to_raw_spec(),
    {
        match self {
            ToolbarStyle::Icons => 0i32,
            ToolbarStyle::Text => 1i32,
            ToolbarStyle::Both => 2i32,
            ToolbarStyle::BothHoriz => 3i32,
        }
    }

    pub fn from_raw(raw: i32) -> (r: Option<ToolbarStyle>)
        ensures
            r == Self::from_raw_spec(raw),
    {
        if raw == 0i32 {
            Some(ToolbarStyle::Icons)
        } else if raw == 1i32 {
            Some(ToolbarStyle::Text)
        } else if raw == 2i32 {
            Some(ToolbarStyle::Both)
        } else if raw == 3i32 {
            Some(ToolbarStyle::BothHoriz)
        } else {
            None
        }
    }

    /// Round-trip law: converting a tag to its foreign integer and back
    /// yields the original tag.
    pub proof fn lemma_round_trip(self)
        ensures
            Self::from_raw_spec(self.to_raw_spec()) == Some(self),
    {
    }

    /// Reverse round-trip law: a foreign integer that reads back as a tag is
    /// exactly that tag's foreign integer.
    pub proof fn lemma_raw_round_trip(raw: i32)
        ensures
            Self::from_raw_spec(raw) matches Some(t) ==> t.to_raw_spec() == raw,
    {
    }
}

/// Built-in icon sizes.
#[derive(Clone, Copy, PartialEq, Eq, Structural, Debug)]
pub enum IconSize {
    Invalid,
    Memu,
    SmallToolbar,
    LargeToolbar,
    Button,
    Dnd,
    Disalog,
}

impl IconSize {
    /// The foreign integer constant this tag stands for.
    pub open spec fn to_raw_spec(self) -> i32 {
        match self {
            IconSize::Invalid => 0i32,
            IconSize::Memu => 1i32,
            IconSize::SmallToolbar => 2i32,
            IconSize::LargeToolbar => 3i32,
            IconSize::Button => 4i32,
            IconSize::Dnd => 5i32,
            IconSize::Disalog => 6i32,
        }
    }

    /// The tag a foreign integer stands for, if any.
    pub open spec fn from_raw_spec(raw: i32) -> Option<IconSize> {
        if raw == 0i32 {
            Some(IconSize::Invalid)
        } else if raw == 1i32 {
            Some(IconSize::Memu)
        } else if raw == 2i32 {
            Some(IconSize::SmallToolbar)
        } else if raw == 3i32 {
            Some(IconSize::LargeToolbar)
        } else if raw == 4i32 {
            Some(IconSize::Button)
        } else if raw == 5i32 {
            Some(IconSize::Dnd)
        } else if raw == 6i32 {
            Some(IconSize::Disalog)
        } else {
            None
        }
    }

    pub fn to_raw(self) -> (r: i32)
        ensures
            r == self.to_raw_spec(),
    {
        match self {
            IconSize::Invalid => 0i32,
            IconSize::Memu => 1i32,
            IconSize::SmallToolbar => 2i32,
            IconSize::LargeToolbar => 3i32,
            IconSize::Button => 4i32,
            IconSize::Dnd => 5i32,
            IconSize::Disalog => 6i32,
        }
    }

    pub fn from_raw(raw: i32) -> (r: Option<IconSize>)
        ensures
            r == Self::from_raw_spec(raw),
    {
        if raw == 0i32 {
            Some(IconSize::Invalid)
        } else if raw == 1i32 {
            Some(IconSize::Memu)
        } else if raw == 2i32 {
            Some(IconSize::SmallToolbar)
        } else if raw == 3i32 {
            Some(IconSize::LargeToolbar)
        } else if raw == 4i32 {
            Some(IconSize::Button)
        } else if raw == 5i32 {
            Some(IconSize::Dnd)
        } else if raw == 6i32 {
            Some(IconSize::Disalog)
        } else {
            None
        }
    }

    /// Round-trip law: converting a tag to its foreign integer and back
    /// yields the original tag.
    pub proof fn lemma_round_trip(self)
        ensures
            Self::from_raw_spec(self.to_raw_spec()) == Some(self),
    {
    }

    /// Reverse round-trip law: a foreign integer that reads back as a tag is
    /// exactly that tag's foreign integer.
    pub proof fn lemma_raw_round_trip(raw: i32)
        ensures
            Self::from_raw_spec(raw) matches Some(t) ==> t.to_raw_spec() == raw,
    {
    }
}

/// The side of an entry an icon is placed at.
#[derive(Clone, Copy, PartialEq, Eq, Structural, Debug)]
pub enum EntryIconPosition {
    Primary,
    Secondary,
}

impl EntryIconPosition {
    /// The foreign integer constant this tag stands for.
    pub open spec fn to_raw_spec(self) -> i32 {
        match self {
            EntryIconPosition::Primary => 0i32,
            EntryIconPosition::Secondary => 1i32,
        }
    }

    /// The tag a foreign integer stands for, if any.
    pub open spec fn from_raw_spec(raw: i32) -> Option<EntryIconPosition> {
        if raw == 0i32 {
            Some(EntryIconPosition::Primary)
        } else if raw == 1i32 {
            Some(EntryIconPosition::Secondary)
        } else {
            None
        }
    }

    pub fn to_raw(self) -> (r: i32)
        ensures
            r == self.to_raw_spec(),
    {
        match self {
            EntryIconPosition::Primary => 0i32,
            EntryIconPosition::Secondary => 1i32,
        }
    }

    pub fn from_raw(raw: i32) -> (r: Option<EntryIconPosition>)
        ensures
            r == Self::from_raw_spec(raw),
    {
        if raw == 0i32 {
            Some(EntryIconPosition::Primary)
        } else if raw == 1i32 {
            Some(EntryIconPosition::Secondary)
        } else {
            None
        }
    }

    /// Round-trip law: converting a tag to its foreign integer and back
    /// yields the original tag.
    pub proof fn lemma_round_trip(self)
        ensures
            Self::from_raw_spec(self.to_raw_spec()) == Some(self),
    {
    }

    /// Reverse round-trip law: a foreign integer that reads back as a tag is
    /// exactly that tag's foreign integer.
    pub proof fn lemma_raw_round_trip(raw: i32)
        ensures
            Self::from_raw_spec(raw) matches Some(t) ==> t.to_raw_spec() == raw,
    {
    }
}

/// The primary purpose of an input widget.
#[derive(Clone, Copy, PartialEq, Eq, Structural, Debug)]
pub enum InputPurpose {
    FreeForm,
    Alpha,
    Digits,
    Number,
    Phone,
    Url,
    Email,
    Name,
    Password,
    Pin,
}

impl InputPurpose {
    /// The foreign integer constant this tag stands for.
    pub open spec fn to_raw_spec(self) -> i32 {
        match self {
            InputPurpose::FreeForm => 0i32,
            InputPurpose::Alpha => 1i32,
            InputPurpose::Digits => 2i32,
            InputPurpose::Number => 3i32,
            InputPurpose::Phone => 4i32,
            InputPurpose::Url => 5i32,
            InputPurpose::Email => 6i32,
            InputPurpose::Name => 7i32,
            InputPurpose::Password => 8i32,
            InputPurpose::Pin => 9i32,
        }
    }

    /// The tag a foreign integer stands for, if any.
    pub open spec fn from_raw_spec(raw: i32) -> Option<InputPurpose> {
        if raw == 0i32 {
            Some(InputPurpose::FreeForm)
        } else if raw == 1i32 {
            Some(InputPurpose::Alpha)
        } else if raw == 2i32 {
            Some(InputPurpose::Digits)
        } else if raw == 3i32 {
            Some(InputPurpose::Number)
        } else if raw == 4i32 {
            Some(InputPurpose::Phone)
        } else if raw == 5i32 {
            Some(InputPurpose::Url)
        } else if raw == 6i32 {
            Some(InputPurpose::Email)
        } else if raw == 7i32 {
            Some(InputPurpose::Name)
        } else if raw == 8i32 {
            Some(InputPurpose::Password)
        } else if raw == 9i32 {
            Some(InputPurpose::Pin)
        } else {
            None
        }
    }

    pub fn to_raw(self) -> (r: i32)
        ensures
            r == self.to_raw_spec(),
    {
        match self {
            InputPurpose::FreeForm => 0i32,
            InputPurpose::Alpha => 1i32,
            InputPurpose::Digits => 2i32,
            InputPurpose::Number => 3i32,
            InputPurpose::Phone => 4i32,
            InputPurpose::Url => 5i32,
            InputPurpose::Email => 6i32,
            InputPurpose::Name => 7i32,
            InputPurpose::Password => 8i32,
            InputPurpose::Pin => 9i32,
        }
    }

    pub fn from_raw(raw: i32) -> (r: Option<InputPurpose>)
        ensures
            r == Self::from_raw_spec(raw),
    {
        if raw == 0i32 {
            Some(InputPurpose::FreeForm)
        } else if raw == 1i32 {
            Some(InputPurpose::Alpha)
        } else if raw == 2i32 {
            Some(InputPurpose::Digits)
        } else if raw == 3i32 {
            Some(InputPurpose::Number)
        } else if raw == 4i32 {
            Some(InputPurpose::Phone)
        } else if raw == 5i32 {
            Some(InputPurpose::Url)
        } else if raw == 6i32 {
            Some(InputPurpose::Email)
        } else if raw == 7i32 {
            Some(InputPurpose::Name)
        } else if raw == 8i32 {
            Some(InputPurpose::Password)
        } else if raw == 9i32 {
            Some(InputPurpose::Pin)
        } else {
            None
        }
    }

    /// Round-trip law: converting a tag to its foreign integer and back
    /// yields the original tag.
    pub proof fn lemma_round_trip(self)
        ensures
            Self::from_raw_spec(self.to_raw_spec()) == Some(self),
    {
    }

    /// Reverse round-trip law: a foreign integer that reads back as a tag is
    /// exactly that tag's foreign integer.
    pub proof fn lemma_raw_round_trip(raw: i32)
        ensures
            Self::from_raw_spec(raw) matches Some(t) ==> t.to_raw_spec() == raw,
    {
    }
}

/// The representation used by an image widget.
#[derive(Clone, Copy, PartialEq, Eq, Structural, Debug)]
pub enum ImageType {
    Empty,
    Pixbuf,
    Stock,
    IconSet,
    Animation,
    IconName,
    GIcon,
    Surface,
}

impl ImageType {
    /// The foreign integer constant this tag stands for.
    pub open spec fn to_raw_spec(self) -> i32 {
        match self {
            ImageType::Empty => 0i32,
            ImageType::Pixbuf => 1i32,
            ImageType::Stock => 2i32,
            ImageType::IconSet => 3i32,
            ImageType::Animation => 4i32,
            ImageType::IconName => 5i32,
            ImageType::GIcon => 6i32,
            ImageType::Surface => 7i32,
        }
    }

    /// The tag a foreign integer stands for, if any.
    pub open spec fn from_raw_spec(raw: i32) -> Option<ImageType> {
        if raw == 0i32 {
            Some(ImageType::Empty)
        } else if raw == 1i32 {
            Some(ImageType::Pixbuf)
        } else if raw == 2i32 {
            Some(ImageType::Stock)
        } else if raw == 3i32 {
            Some(ImageType::IconSet)
        } else if raw == 4i32 {
            Some(ImageType::Animation)
        } else if raw == 5i32 {
            Some(ImageType::IconName)
        } else if raw == 6i32 {
            Some(ImageType::GIcon)
        } else if raw == 7i32 {
            Some(ImageType::Surface)
        } else {
            None
        }
    }

    pub fn to_raw(self) -> (r: i32)
        ensures
            r == self.to_raw_spec(),
    {
        match self {
            ImageType::Empty => 0i32,
            ImageType::Pixbuf => 1i32,
            ImageType::Stock => 2i32,
            ImageType::IconSet => 3i32,
            ImageType::Animation => 4i32,
            ImageType::IconName => 5i32,
            ImageType::GIcon => 6i32,
            ImageType::Surface => 7i32,
        }
    }

    pub fn from_raw(raw: i32) -> (r: Option<ImageType>)
        ensures
            r == Self::from_raw_spec(raw),
    {
        if raw == 0i32 {
            Some(ImageType::Empty)
        } else if raw == 1i32 {
            Some(ImageType::Pixbuf)
        } else if raw == 2i32 {
            Some(ImageType::Stock)
        } else if raw == 3i32 {
            Some(ImageType::IconSet)
        } else if raw == 4i32 {
            Some(ImageType::Animation)
        } else if raw == 5i32 {
            Some(ImageType::IconName)
        } else if raw == 6i32 {
            Some(ImageType::GIcon)
        } else if raw == 7i32 {
            Some(ImageType::Surface)
        } else {
            None
        }
    }

    /// Round-trip law: converting a tag to its foreign integer and back
    /// yields the original tag.
    pub proof fn lemma_round_trip(self)
        ensures
            Self::from_raw_spec(self.to_raw_spec()) == Some(self),
    {
    }

    /// Reverse round-trip law: a foreign integer that reads back as a tag is
    /// exactly that tag's foreign integer.
    pub proof fn lemma_raw_round_trip(raw: i32)
        ensures
            Self::from_raw_spec(raw) matches Some(t) ==> t.to_raw_spec() == raw,
    {
    }
}

/// The change made by a spin button step.
#[derive(Clone, Copy, PartialEq, Eq, Structural, Debug)]
pub enum SpinType {
    StepForward,
    StepBackward,
    PageForward,
    PageBackward,
    Home,
    End,
    UserDefined,
}

impl SpinType {
    /// The foreign integer constant this tag stands for.
    pub open spec fn to_raw_spec(self) -> i32 {
        match self {
            SpinType::StepForward => 0i32,
            SpinType::StepBackward => 1i32,
            SpinType::PageForward => 2i32,
            SpinType::PageBackward => 3i32,
            SpinType::Home => 4i32,
            SpinType::End => 5i32,
            SpinType::UserDefined => 6i32,
        }
    }

    /// The tag a foreign integer stands for, if any.
    pub open spec fn from_raw_spec(raw: i32) -> Option<SpinType> {
        if raw == 0i32 {
            Some(SpinType::StepForward)
        } else if raw == 1i32 {
            Some(SpinType::StepBackward)
        } else if raw == 2i32 {
            Some(SpinType::PageForward)
        } else if raw == 3i32 {
            Some(SpinType::PageBackward)
        } else if raw == 4i32 {
            Some(SpinType::Home)
        } else if raw == 5i32 {
            Some(SpinType::End)
        } else if raw == 6i32 {
            Some(SpinType::UserDefined)
        } else {
            None
        }
    }

    pub fn to_raw(self) -> (r: i32)
        ensures
            r == self.to_raw_spec(),
    {
        match self {
            SpinType::StepForward => 0i32,
            SpinType::StepBackward => 1i32,
            SpinType::PageForward => 2i32,
            SpinType::PageBackward => 3i32,
            SpinType::Home => 4i32,
            SpinType::End => 5i32,
            SpinType::UserDefined => 6i32,
        }
    }

    pub fn from_raw(raw: i32) -> (r: Option<SpinType>)
        ensures
            r == Self::from_raw_spec(raw),
    {
        if raw == 0i32 {
            Some(SpinType::StepForward)
        } else if raw == 1i32 {
            Some(SpinType::StepBackward)
        } else if raw == 2i32 {
            Some(SpinType::PageForward)
        } else if raw == 3i32 {
            Some(SpinType::PageBackward)
        } else if raw == 4i32 {
            Some(SpinType::Home)
        } else if raw == 5i32 {
            Some(SpinType::End)
        } else if raw == 6i32 {
            Some(SpinType::UserDefined)
        } else {
            None
        }
    }

    /// Round-trip law: converting a tag to its foreign integer and back
    /// yields the original tag.
    pub proof fn lemma_round_trip(self)
        ensures
            Self::from_raw_spec(self.to_raw_spec()) == Some(self),
    {
    }

    /// Reverse round-trip law: a foreign integer that reads back as a tag is
    /// exactly that tag's foreign integer.
    pub proof fn lemma_raw_round_trip(raw: i32)
        ensures
            Self::from_raw_spec(raw) matches Some(t) ==> t.to_raw_spec() == raw,
    {
    }
}

/// Whether a spin button displays values outside its bounds.
#[derive(Clone, Copy, PartialEq, Eq, Structural, Debug)]
pub enum SpinButtonUpdatePolicy {
    Always,
    IfValid,
}

impl SpinButtonUpdatePolicy {
    /// The foreign integer constant this tag stands for.
    pub open spec fn to_raw_spec(self) -> i32 {
        match self {
            SpinButtonUpdatePolicy::Always => 0i32,
            SpinButtonUpdatePolicy::IfValid => 1i32,
        }
    }

    /// The tag a foreign integer stands for, if any.
    pub open spec fn from_raw_spec(raw: i32) -> Option<SpinButtonUpdatePolicy> {
        if raw == 0i32 {
            Some(SpinButtonUpdatePolicy::Always)
        } else if raw == 1i32 {
            Some(SpinButtonUpdatePolicy::IfValid)
        } else {
            None
        }
    }

    pub fn to_raw(self) -> (r: i32)
        ensures
            r == self.to_raw_spec(),
    {
        match self {
            SpinButtonUpdatePolicy::Always => 0i32,
            SpinButtonUpdatePolicy::IfValid => 1i32,
        }
    }

    pub fn from_raw(raw: i32) -> (r: Option<SpinButtonUpdatePolicy>)
        ensures
            r == Self::from_raw_spec(raw),
    {
        if raw == 0i32 {
            Some(SpinButtonUpdatePolicy::Always)
        } else if raw == 1i32 {
            Some(SpinButtonUpdatePolicy::IfValid)
        } else {
            None
        }
    }

    /// Round-trip law: converting a tag to its foreign integer and back
    /// yields the original tag.
    pub proof fn lemma_round_trip(self)
        ensures
            Self::from_raw_spec(self.to_raw_spec()) == Some(self),
    {
    }

    /// Reverse round-trip law: a foreign integer that reads back as a tag is
    /// exactly that tag's foreign integer.
    pub proof fn lemma_raw_round_trip(raw: i32)
        ensures
            Self::from_raw_spec(raw) matches Some(t) ==> t.to_raw_spec() == raw,
    {
    }
}

/// How level bar contents are rendered.
#[derive(Clone, Copy, PartialEq, Eq, Structural, Debug)]
pub enum LevelBarMode {
    Continuous,
    Discrete,
}

impl LevelBarMode {
    /// The foreign integer constant this tag stands for.
    pub open spec fn to_raw_spec(self) -> i32 {
        match self {
            LevelBarMode::Continuous => 0i32,
            LevelBarMode::Discrete => 1i32,
        }
    }

    /// The tag a foreign integer stands for, if any.
    pub open spec fn from_raw_spec(raw: i32) -> Option<LevelBarMode> {
        if raw == 0i32 {
            Some(LevelBarMode::Continuous)
        } else if raw == 1i32 {
            Some(LevelBarMode::Discrete)
        } else {
            None
        }
    }

    pub fn to_raw(self) -> (r: i32)
        ensures
            r == self.to_raw_spec(),
    {
        match self {
            LevelBarMode::Continuous => 0i32,
            LevelBarMode::Discrete => 1i32,
        }
    }

    pub fn from_raw(raw: i32) -> (r: Option<LevelBarMode>)
        ensures
            r == Self::from_raw_spec(raw),
    {
        if raw == 0i32 {
            Some(LevelBarMode::Continuous)
        } else if raw == 1i32 {
            Some(LevelBarMode::Discrete)
        } else {
            None
        }
    }

    /// Round-trip law: converting a tag to its foreign integer and back
    /// yields the original tag.
    pub proof fn lemma_round_trip(self)
        ensures
            Self::from_raw_spec(self.to_raw_spec()) == Some(self),
    {
    }

    /// Reverse round-trip law: a foreign integer that reads back as a tag is
    /// exactly that tag's foreign integer.
    pub proof fn lemma_raw_round_trip(raw: i32)
        ensures
            Self::from_raw_spec(raw) matches Some(t) ==> t.to_raw_spec() == raw,
    {
    }
}

/// The type of message shown in a message dialog.
#[derive(Clone, Copy, PartialEq, Eq, Structural, Debug)]
pub enum MessageType {
    Info,
    Warning,
    Question,
    Error,
    Other,
}

impl MessageType {
    /// The foreign integer constant this tag stands for.
    pub open spec fn to_raw_spec(self) -> i32 {
        match self {
            MessageType::Info => 0i32,
            MessageType::Warning => 1i32,
            MessageType::Question => 2i32,
            MessageType::Error => 3i32,
            MessageType::Other => 4i32,
        }
    }

    /// The tag a foreign integer stands for, if any.
    pub open spec fn from_raw_spec(raw: i32) -> Option<MessageType> {
        if raw == 0i32 {
            Some(MessageType::Info)
        } else if raw == 1i32 {
            Some(MessageType::Warning)
        } else if raw == 2i32 {
            Some(MessageType::Question)
        } else if raw == 3i32 {
            Some(MessageType::Error)
        } else if raw == 4i32 {
            Some(MessageType::Other)
        } else {
            None
        }
    }

    pub fn to_raw(self) -> (r: i32)
        ensures
            r == self.to_raw_spec(),
    {
        match self {
            MessageType::Info => 0i32,
            MessageType::Warning => 1i32,
            MessageType::Question => 2i32,
            MessageType::Error => 3i32,
            MessageType::Other => 4i32,
        }
    }

    pub fn from_raw(raw: i32) -> (r: Option<MessageType>)
        ensures
            r == Self::from_raw_spec(raw),
    {
        if raw == 0i32 {
            Some(MessageType::Info)
        } else if raw == 1i32 {
            Some(MessageType::Warning)
        } else if raw == 2i32 {
            Some(MessageType::Question)
        } else if raw == 3i32 {
            Some(MessageType::Error)
        } else if raw == 4i32 {
            Some(MessageType::Other)
        } else {
            None
        }
    }

    /// Round-trip law: converting a tag to its foreign integer and back
    /// yields the original tag.
    pub proof fn lemma_round_trip(self)
        ensures
            Self::from_raw_spec(self.to_raw_spec()) == Some(self),
    {
    }

    /// Reverse round-trip law: a foreign integer that reads back as a tag is
    /// exactly that tag's foreign integer.
    pub proof fn lemma_raw_round_trip(raw: i32)
        ensures
            Self::from_raw_spec(raw) matches Some(t) ==> t.to_raw_spec() == raw,
    {
    }
}

/// Options that influence dialog construction.
#[derive(Clone, Copy, PartialEq, Eq, Structural, Debug)]
pub enum DialogFlags {
    Modal,
    DestroyWithParents,
    UseHeaderBar,
}

impl DialogFlags {
    /// The foreign integer constant this tag stands for.
    pub open spec fn to_raw_spec(self) -> i32 {
        match self {
            DialogFlags::Modal => 0i32,
            DialogFlags::DestroyWithParents => 1i32,
            DialogFlags::UseHeaderBar => 2i32,
        }
    }

    /// The tag a foreign integer stands for, if any.
    pub open spec fn from_raw_spec(raw: i32) -> Option<DialogFlags> {
        if raw == 0i32 {
            Some(DialogFlags::Modal)
        } else if raw == 1i32 {
            Some(DialogFlags::DestroyWithParents)
        } else if raw == 2i32 {
            Some(DialogFlags::UseHeaderBar)
        } else {
            None
        }
    }

    pub fn to_raw(self) -> (r: i32)
        ensures
            r == self.to_raw_spec(),
    {
        match self {
            DialogFlags::Modal => 0i32,
            DialogFlags::DestroyWithParents => 1i32,
            DialogFlags::UseHeaderBar => 2i32,
        }
    }

    pub fn from_raw(raw: i32) -> (r: Option<DialogFlags>)
        ensures
            r == Self::from_raw_spec(raw),
    {
        if raw == 0i32 {
            Some(DialogFlags::Modal)
        } else if raw == 1i32 {
            Some(DialogFlags::DestroyWithParents)
        } else if raw == 2i32 {
            Some(DialogFlags::UseHeaderBar)
        } else {
            None
        }
    }

    /// Round-trip law: converting a tag to its foreign integer and back
    /// yields the original tag.
    pub proof fn lemma_round_trip(self)
        ensures
            Self::from_raw_spec(self.to_raw_spec()) == Some(self),
    {
    }

    /// Reverse round-trip law: a foreign integer that reads back as a tag is
    /// exactly that tag's foreign integer.
    pub proof fn lemma_raw_round_trip(raw: i32)
        ensures
            Self::from_raw_spec(raw) matches Some(t) ==> t.to_raw_spec() == raw,
    {
    }
}

/// The license of an application.
#[allow(non_camel_case_types)]
#[derive(Clone, Copy, PartialEq, Eq, Structural, Debug)]
pub enum License {
    Unknown,
    Custom,
    GPL_2_0,
    GPL_3_0,
    LGPL_2_1,
    LGPL_3_0,
    BSD,
    MIT_X11,
    Artistic,
    GPL_2_0_Only,
    GPL_3_0_Only,
    LGPL_2_1_Only,
    LGPL_3_0_Only,
}

impl License {
    /// The foreign integer constant this tag stands for.
    pub open spec fn to_raw_spec(self) -> i32 {
        match self {
            License::Unknown => 0i32,
            License::Custom => 1i32,
            License::GPL_2_0 => 2i32,
            License::GPL_3_0 => 3i32,
            License::LGPL_2_1 => 4i32,
            License::LGPL_3_0 => 5i32,
            License::BSD => 6i32,
            License::MIT_X11 => 7i32,
            License::Artistic => 8i32,
            License::GPL_2_0_Only => 9i32,
            License::GPL_3_0_Only => 10i32,
            License::LGPL_2_1_Only => 11i32,
            License::LGPL_3_0_Only => 12i32,
        }
    }

    /// The tag a foreign integer stands for, if any.
    pub open spec fn from_raw_spec(raw: i32) -> Option<License> {
        if raw == 0i32 {
            Some(License::Unknown)
        } else if raw == 1i32 {
            Some(License::Custom)
        } else if raw == 2i32 {
            Some(License::GPL_2_0)
        } else if raw == 3i32 {
            Some(License::GPL_3_0)
        } else if raw == 4i32 {
            Some(License::LGPL_2_1)
        } else if raw == 5i32 {
            Some(License::LGPL_3_0)
        } else if raw == 6i32 {
            Some(License::BSD)
        } else if raw == 7i32 {
            Some(License::MIT_X11)
        } else if raw == 8i32 {
            Some(License::Artistic)
        } else if raw == 9i32 {
            Some(License::GPL_2_0_Only)
        } else if raw == 10i32 {
            Some(License::GPL_3_0_Only)
        } else if raw == 11i32 {
            Some(License::LGPL_2_1_Only)
        } else if raw == 12i32 {
            Some(License::LGPL_3_0_Only)
        } else {
            None
        }
    }

    pub fn to_raw(self) -> (r: i32)
        ensures
            r == self.to_raw_spec(),
    {
        match self {
            License::Unknown => 0i32,
            License::Custom => 1i32,
            License::GPL_2_0 => 2i32,
            License::GPL_3_0 => 3i32,
            License::LGPL_2_1 => 4i32,
            License::LGPL_3_0 => 5i32,
            License::BSD => 6i32,
            License::MIT_X11 => 7i32,
            License::Artistic => 8i32,
            License::GPL_2_0_Only => 9i32,
            License::GPL_3_0_Only => 10i32,
            License::LGPL_2_1_Only => 11i32,
            License::LGPL_3_0_Only => 12i32,
        }
    }

    pub fn from_raw(raw: i32) -> (r: Option<License>)
        ensures
            r == Self::from_raw_spec(raw),
    {
        if raw == 0i32 {
            Some(License::Unknown)
        } else if raw == 1i32 {
            Some(License::Custom)
        } else if raw == 2i32 {
            Some(License::GPL_2_0)
        } else if raw == 3i32 {
            Some(License::GPL_3_0)
        } else if raw == 4i32 {
            Some(License::LGPL_2_1)
        } else if raw == 5i32 {
            Some(License::LGPL_3_0)
        } else if raw == 6i32 {
            Some(License::BSD)
        } else if raw == 7i32 {
            Some(License::MIT_X11)
        } else if raw == 8i32 {
            Some(License::Artistic)
        } else if raw == 9i32 {
            Some(License::GPL_2_0_Only)
        } else if raw == 10i32 {
            Some(License::GPL_3_0_Only)
        } else if raw == 11i32 {
            Some(License::LGPL_2_1_Only)
        } else if raw == 12i32 {
            Some(License::LGPL_3_0_Only)
        } else {
            None
        }
    }

    /// Round-trip law: converting a tag to its foreign integer and back
    /// yields the original tag.
    pub proof fn lemma_round_trip(self)
        ensures
            Self::from_raw_spec(self.to_raw_spec()) == Some(self),
    {
    }

    /// Reverse round-trip law: a foreign integer that reads back as a tag is
    /// exactly that tag's foreign integer.
    pub proof fn lemma_raw_round_trip(raw: i32)
        ensures
            Self::from_raw_spec(raw) matches Some(t) ==> t.to_raw_spec() == raw,
    {
    }
}

/// Predefined response identifiers of dialog buttons.
#[derive(Clone, Copy, PartialEq, Eq, Structural, Debug)]
pub enum ResponseType {
    NoResponse,
    Reject,
    Accept,
    DeleteEvent,
    Okay,
    Cancel,
    Close,
    Yes,
    No,
    Apply,
    Help,
}

impl ResponseType {
    /// The foreign integer constant this tag stands for.
    pub open spec fn to_raw_spec(self) -> i32 {
        match self {
            ResponseType::NoResponse => -1i32,
            ResponseType::Reject => -2i32,
            ResponseType::Accept => -3i32,
            ResponseType::DeleteEvent => -4i32,
            ResponseType::Okay => -5i32,
            ResponseType::Cancel => -6i32,
            ResponseType::Close => -7i32,
            ResponseType::Yes => -8i32,
            ResponseType::No => -9i32,
            ResponseType::Apply => -10i32,
            ResponseType::Help => -11i32,
        }
    }

    /// The tag a foreign integer stands for, if any.
    pub open spec fn from_raw_spec(raw: i32) -> Option<ResponseType> {
        if raw == -1i32 {
            Some(ResponseType::NoResponse)
        } else if raw == -2i32 {
            Some(ResponseType::Reject)
        } else if raw == -3i32 {
            Some(ResponseType::Accept)
        } else if raw == -4i32 {
            Some(ResponseType::DeleteEvent)
        } else if raw == -5i32 {
            Some(ResponseType::Okay)
        } else if raw == -6i32 {
            Some(ResponseType::Cancel)
        } else if raw == -7i32 {
            Some(ResponseType::Close)
        } else if raw == -8i32 {
            Some(ResponseType::Yes)
        } else if raw == -9i32 {
            Some(ResponseType::No)
        } else if raw == -10i32 {
            Some(ResponseType::Apply)
        } else if raw == -11i32 {
            Some(ResponseType::Help)
        } else {
            None
        }
    }

    pub fn to_raw(self) -> (r: i32)
        ensures
            r == self.to_raw_spec(),
    {
        match self {
            ResponseType::NoResponse => -1i32,
            ResponseType::Reject => -2i32,
            ResponseType::Accept => -3i32,
            ResponseType::DeleteEvent => -4i32,
            ResponseType::Okay => -5i32,
            ResponseType::Cancel => -6i32,
            ResponseType::Close => -7i32,
            ResponseType::Yes => -8i32,
            ResponseType::No => -9i32,
            ResponseType::Apply => -10i32,
            ResponseType::Help => -11i32,
        }
    }

    pub fn from_raw(raw: i32) -> (r: Option<ResponseType>)
        ensures
            r == Self::from_raw_spec(raw),
    {
        if raw == -1i32 {
            Some(ResponseType::NoResponse)
        } else if raw == -2i32 {
            Some(ResponseType::Reject)
        } else if raw == -3i32 {
            Some(ResponseType::Accept)
        } else if raw == -4i32 {
            Some(ResponseType::DeleteEvent)
        } else if raw == -5i32 {
            Some(ResponseType::Okay)
        } else if raw == -6i32 {
            Some(ResponseType::Cancel)
        } else if raw == -7i32 {
            Some(ResponseType::Close)
        } else if raw == -8i32 {
            Some(ResponseType::Yes)
        } else if raw == -9i32 {
            Some(ResponseType::No)
        } else if raw == -10i32 {
            Some(ResponseType::Apply)
        } else if raw == -11i32 {
            Some(ResponseType::Help)
        } else {
            None
        }
    }

    /// Round-trip law: converting a tag to its foreign integer and back
    /// yields the original tag.
    pub proof fn lemma_round_trip(self)
        ensures
            Self::from_raw_spec(self.to_raw_spec()) == Some(self),
    {
    }

    /// Reverse round-trip law: a foreign integer that reads back as a tag is
    /// exactly that tag's foreign integer.
    pub proof fn lemma_raw_round_trip(raw: i32)
        ensures
            Self::from_raw_spec(raw) matches Some(t) ==> t.to_raw_spec() == raw,
    {
    }
}

} // verus!
