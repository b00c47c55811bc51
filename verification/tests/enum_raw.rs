//! Round-trip checks for every enumeration: tag -> foreign integer -> tag
//! is the identity, and integers outside the table read back as absent.

use rgtk::coverage::CoverageLevel;
use rgtk::enums::{WindowType, TextDirection, WindowPosition, ButtonBoxStyle, Orientation, DirectionType, CornerType, ResizeMode, BorderStyle, SortType, DragResult, ArrowPlacement, ArrowType, DeleteType, ExpanderStyle, IMPreeditStyle, IMStatusStyle, Justification, MovementStep, PackType, PathPriorityType, PathType, PolicyType, PositionType, ReliefStyle, ScrollStep, ScrollType, SelectionMode, ShadowType, StateType, ToolbarStyle, IconSize, EntryIconPosition, InputPurpose, ImageType, SpinType, SpinButtonUpdatePolicy, LevelBarMode, MessageType, DialogFlags, License, ResponseType};
use rgtk::flags::{StateFlags, AccelFlags, AttachOptions, JunctionSides, RegionFlags, InputHints, CalendarDisplayOptions};

#[test]
fn round_trip_window_type() {
    assert_eq!(WindowType::TopLevel.to_raw(), 0);
    assert_eq!(WindowType::from_raw(WindowType::TopLevel.to_raw()), Some(WindowType::TopLevel));
    assert_eq!(WindowType::PopUp.to_raw(), 1);
    assert_eq!(WindowType::from_raw(WindowType::PopUp.to_raw()), Some(WindowType::PopUp));
    assert_eq!(WindowType::from_raw(2), None);
    assert_eq!(WindowType::from_raw(9999), None);
}

#[test]
fn round_trip_text_direction() {
    assert_eq!(TextDirection::NoDirection.to_raw(), 0);
    assert_eq!(TextDirection::from_raw(TextDirection::NoDirection.to_raw()), Some(TextDirection::NoDirection));
    assert_eq!(TextDirection::Ltr.to_raw(), 1);
    assert_eq!(TextDirection::from_raw(TextDirection::Ltr.to_raw()), Some(TextDirection::Ltr));
    assert_eq!(TextDirection::Rtl.to_raw(), 2);
    assert_eq!(TextDirection::from_raw(TextDirection::Rtl.to_raw()), Some(TextDirection::Rtl));
    assert_eq!(TextDirection::from_raw(3), None);
    assert_eq!(TextDirection::from_raw(9999), None);
}

#[test]
fn round_trip_window_position() {
    assert_eq!(WindowPosition::NoPosition.to_raw(), 0);
    assert_eq!(WindowPosition::from_raw(WindowPosition::NoPosition.to_raw()), Some(WindowPosition::NoPosition));
    assert_eq!(WindowPosition::Center.to_raw(), 1);
    assert_eq!(WindowPosition::from_raw(WindowPosition::Center.to_raw()), Some(WindowPosition::Center));
    assert_eq!(WindowPosition::Mouse.to_raw(), 2);
    assert_eq!(WindowPosition::from_raw(WindowPosition::Mouse.to_raw()), Some(WindowPosition::Mouse));
    assert_eq!(WindowPosition::CenterAlways.to_raw(), 3);
    assert_eq!(WindowPosition::from_raw(WindowPosition::CenterAlways.to_raw()), Some(WindowPosition::CenterAlways));
    assert_eq!(WindowPosition::CenterOnParent.to_raw(), 4);
    assert_eq!(WindowPosition::from_raw(WindowPosition::CenterOnParent.to_raw()), Some(WindowPosition::CenterOnParent));
    assert_eq!(WindowPosition::from_raw(5), None);
    assert_eq!(WindowPosition::from_raw(9999), None);
}

#[test]
fn round_trip_button_box_style() {
    assert_eq!(ButtonBoxStyle::Spread.to_raw(), 1);
    assert_eq!(ButtonBoxStyle::from_raw(ButtonBoxStyle::Spread.to_raw()), Some(ButtonBoxStyle::Spread));
    assert_eq!(ButtonBoxStyle::Edge.to_raw(), 2);
    assert_eq!(ButtonBoxStyle::from_raw(ButtonBoxStyle::Edge.to_raw()), Some(ButtonBoxStyle::Edge));
    assert_eq!(ButtonBoxStyle::Start.to_raw(), 3);
    assert_eq!(ButtonBoxStyle::from_raw(ButtonBoxStyle::Start.to_raw()), Some(ButtonBoxStyle::Start));
    assert_eq!(ButtonBoxStyle::End.to_raw(), 4);
    assert_eq!(ButtonBoxStyle::from_raw(ButtonBoxStyle::End.to_raw()), Some(ButtonBoxStyle::End));
    assert_eq!(ButtonBoxStyle::Center.to_raw(), 5);
    assert_eq!(ButtonBoxStyle::from_raw(ButtonBoxStyle::Center.to_raw()), Some(ButtonBoxStyle::Center));
    assert_eq!(ButtonBoxStyle::from_raw(0), None);
    assert_eq!(ButtonBoxStyle::from_raw(9999), None);
}

#[test]
fn round_trip_orientation() {
    assert_eq!(Orientation::Horizontal.to_raw(), 0);
    assert_eq!(Orientation::from_raw(Orientation::Horizontal.to_raw()), Some(Orientation::Horizontal));
    assert_eq!(Orientation::Vertical.to_raw(), 1);
    assert_eq!(Orientation::from_raw(Orientation::Vertical.to_raw()), Some(Orientation::Vertical));
    assert_eq!(Orientation::from_raw(2), None);
    assert_eq!(Orientation::from_raw(9999), None);
}

#[test]
fn round_trip_direction_type() {
    assert_eq!(DirectionType::TabForward.to_raw(), 0);
    assert_eq!(DirectionType::from_raw(DirectionType::TabForward.to_raw()), Some(DirectionType::TabForward));
    assert_eq!(DirectionType::TabBackward.to_raw(), 1);
    assert_eq!(DirectionType::from_raw(DirectionType::TabBackward.to_raw()), Some(DirectionType::TabBackward));
    assert_eq!(DirectionType::Up.to_raw(), 2);
    assert_eq!(DirectionType::from_raw(DirectionType::Up.to_raw()), Some(DirectionType::Up));
    assert_eq!(DirectionType::Down.to_raw(), 3);
    assert_eq!(DirectionType::from_raw(DirectionType::Down.to_raw()), Some(DirectionType::Down));
    assert_eq!(DirectionType::Left.to_raw(), 4);
    assert_eq!(DirectionType::from_raw(DirectionType::Left.to_raw()), Some(DirectionType::Left));
    assert_eq!(DirectionType::Right.to_raw(), 5);
    assert_eq!(DirectionType::from_raw(DirectionType::Right.to_raw()), Some(DirectionType::Right));
    assert_eq!(DirectionType::from_raw(6), None);
    assert_eq!(DirectionType::from_raw(9999), None);
}

#[test]
fn round_trip_corner_type() {
    assert_eq!(CornerType::TopLeft.to_raw(), 0);
    assert_eq!(CornerType::from_raw(CornerType::TopLeft.to_raw()), Some(CornerType::TopLeft));
    assert_eq!(CornerType::BottomLeft.to_raw(), 1);
    assert_eq!(CornerType::from_raw(CornerType::BottomLeft.to_raw()), Some(CornerType::BottomLeft));
    assert_eq!(CornerType::TopRight.to_raw(), 2);
    assert_eq!(CornerType::from_raw(CornerType::TopRight.to_raw()), Some(CornerType::TopRight));
    assert_eq!(CornerType::BottomRight.to_raw(), 3);
    assert_eq!(CornerType::from_raw(CornerType::BottomRight.to_raw()), Some(CornerType::BottomRight));
    assert_eq!(CornerType::from_raw(4), None);
    assert_eq!(CornerType::from_raw(9999), None);
}

#[test]
fn round_trip_resize_mode() {
    assert_eq!(ResizeMode::Parent.to_raw(), 0);
    assert_eq!(ResizeMode::from_raw(ResizeMode::Parent.to_raw()), Some(ResizeMode::Parent));
    assert_eq!(ResizeMode::Queue.to_raw(), 1);
    assert_eq!(ResizeMode::from_raw(ResizeMode::Queue.to_raw()), Some(ResizeMode::Queue));
    assert_eq!(ResizeMode::Immediate.to_raw(), 2);
    assert_eq!(ResizeMode::from_raw(ResizeMode::Immediate.to_raw()), Some(ResizeMode::Immediate));
    assert_eq!(ResizeMode::from_raw(3), None);
    assert_eq!(ResizeMode::from_raw(9999), None);
}

#[test]
fn round_trip_border_style() {
    assert_eq!(BorderStyle::NoBorder.to_raw(), 0);
    assert_eq!(BorderStyle::from_raw(BorderStyle::NoBorder.to_raw()), Some(BorderStyle::NoBorder));
    assert_eq!(BorderStyle::Solid.to_raw(), 1);
    assert_eq!(BorderStyle::from_raw(BorderStyle::Solid.to_raw()), Some(BorderStyle::Solid));
    assert_eq!(BorderStyle::Inset.to_raw(), 2);
    assert_eq!(BorderStyle::from_raw(BorderStyle::Inset.to_raw()), Some(BorderStyle::Inset));
    assert_eq!(BorderStyle::Outset.to_raw(), 3);
    assert_eq!(BorderStyle::from_raw(BorderStyle::Outset.to_raw()), Some(BorderStyle::Outset));
    assert_eq!(BorderStyle::Hidden.to_raw(), 4);
    assert_eq!(BorderStyle::from_raw(BorderStyle::Hidden.to_raw()), Some(BorderStyle::Hidden));
    assert_eq!(BorderStyle::Dotted.to_raw(), 5);
    assert_eq!(BorderStyle::from_raw(BorderStyle::Dotted.to_raw()), Some(BorderStyle::Dotted));
    assert_eq!(BorderStyle::Dashed.to_raw(), 6);
    assert_eq!(BorderStyle::from_raw(BorderStyle::Dashed.to_raw()), Some(BorderStyle::Dashed));
    assert_eq!(BorderStyle::Double.to_raw(), 7);
    assert_eq!(BorderStyle::from_raw(BorderStyle::Double.to_raw()), Some(BorderStyle::Double));
    assert_eq!(BorderStyle::Groove.to_raw(), 8);
    assert_eq!(BorderStyle::from_raw(BorderStyle::Groove.to_raw()), Some(BorderStyle::Groove));
    assert_eq!(BorderStyle::Ridge.to_raw(), 9);
    assert_eq!(BorderStyle::from_raw(BorderStyle::Ridge.to_raw()), Some(BorderStyle::Ridge));
    assert_eq!(BorderStyle::from_raw(10), None);
    assert_eq!(BorderStyle::from_raw(9999), None);
}

#[test]
fn round_trip_sort_type() {
    assert_eq!(SortType::Ascending.to_raw(), 0);
    assert_eq!(SortType::from_raw(SortType::Ascending.to_raw()), Some(SortType::Ascending));
    assert_eq!(SortType::Descending.to_raw(), 1);
    assert_eq!(SortType::from_raw(SortType::Descending.to_raw()), Some(SortType::Descending));
    assert_eq!(SortType::from_raw(2), None);
    assert_eq!(SortType::from_raw(9999), None);
}

#[test]
fn round_trip_drag_result() {
    assert_eq!(DragResult::Success.to_raw(), 0);
    assert_eq!(DragResult::from_raw(DragResult::Success.to_raw()), Some(DragResult::Success));
    assert_eq!(DragResult::NoTarget.to_raw(), 1);
    assert_eq!(DragResult::from_raw(DragResult::NoTarget.to_raw()), Some(DragResult::NoTarget));
    assert_eq!(DragResult::UserCanceled.to_raw(), 2);
    assert_eq!(DragResult::from_raw(DragResult::UserCanceled.to_raw()), Some(DragResult::UserCanceled));
    assert_eq!(DragResult::TimeoutExpired.to_raw(), 3);
    assert_eq!(DragResult::from_raw(DragResult::TimeoutExpired.to_raw()), Some(DragResult::TimeoutExpired));
    assert_eq!(DragResult::GrabBroken.to_raw(), 4);
    assert_eq!(DragResult::from_raw(DragResult::GrabBroken.to_raw()), Some(DragResult::GrabBroken));
    assert_eq!(DragResult::Error.to_raw(), 5);
    assert_eq!(DragResult::from_raw(DragResult::Error.to_raw()), Some(DragResult::Error));
    assert_eq!(DragResult::from_raw(6), None);
    assert_eq!(DragResult::from_raw(9999), None);
}

#[test]
fn round_trip_arrow_placement() {
    assert_eq!(ArrowPlacement::Both.to_raw(), 0);
    assert_eq!(ArrowPlacement::from_raw(ArrowPlacement::Both.to_raw()), Some(ArrowPlacement::Both));
    assert_eq!(ArrowPlacement::Start.to_raw(), 1);
    assert_eq!(ArrowPlacement::from_raw(ArrowPlacement::Start.to_raw()), Some(ArrowPlacement::Start));
    assert_eq!(ArrowPlacement::End.to_raw(), 2);
    assert_eq!(ArrowPlacement::from_raw(ArrowPlacement::End.to_raw()), Some(ArrowPlacement::End));
    assert_eq!(ArrowPlacement::from_raw(3), None);
    assert_eq!(ArrowPlacement::from_raw(9999), None);
}

#[test]
fn round_trip_arrow_type() {
    assert_eq!(ArrowType::Up.to_raw(), 0);
    assert_eq!(ArrowType::from_raw(ArrowType::Up.to_raw()), Some(ArrowType::Up));
    assert_eq!(ArrowType::Down.to_raw(), 1);
    assert_eq!(ArrowType::from_raw(ArrowType::Down.to_raw()), Some(ArrowType::Down));
    assert_eq!(ArrowType::Left.to_raw(), 2);
    assert_eq!(ArrowType::from_raw(ArrowType::Left.to_raw()), Some(ArrowType::Left));
    assert_eq!(ArrowType::Right.to_raw(), 3);
    assert_eq!(ArrowType::from_raw(ArrowType::Right.to_raw()), Some(ArrowType::Right));
    assert_eq!(ArrowType::NoArrow.to_raw(), 4);
    assert_eq!(ArrowType::from_raw(ArrowType::NoArrow.to_raw()), Some(ArrowType::NoArrow));
    assert_eq!(ArrowType::from_raw(5), None);
    assert_eq!(ArrowType::from_raw(9999), None);
}

#[test]
fn round_trip_delete_type() {
    assert_eq!(DeleteType::Chars.to_raw(), 0);
    assert_eq!(DeleteType::from_raw(DeleteType::Chars.to_raw()), Some(DeleteType::Chars));
    assert_eq!(DeleteType::WordsEnd.to_raw(), 1);
    assert_eq!(DeleteType::from_raw(DeleteType::WordsEnd.to_raw()), Some(DeleteType::WordsEnd));
    assert_eq!(DeleteType::Words.to_raw(), 2);
    assert_eq!(DeleteType::from_raw(DeleteType::Words.to_raw()), Some(DeleteType::Words));
    assert_eq!(DeleteType::DisplayLines.to_raw(), 3);
    assert_eq!(DeleteType::from_raw(DeleteType::DisplayLines.to_raw()), Some(DeleteType::DisplayLines));
    assert_eq!(DeleteType::DisplayLineEnd.to_raw(), 4);
    assert_eq!(DeleteType::from_raw(DeleteType::DisplayLineEnd.to_raw()), Some(DeleteType::DisplayLineEnd));
    assert_eq!(DeleteType::ParagraphEnds.to_raw(), 5);
    assert_eq!(DeleteType::from_raw(DeleteType::ParagraphEnds.to_raw()), Some(DeleteType::ParagraphEnds));
    assert_eq!(DeleteType::Paragraphs.to_raw(), 6);
    assert_eq!(DeleteType::from_raw(DeleteType::Paragraphs.to_raw()), Some(DeleteType::Paragraphs));
    assert_eq!(DeleteType::Whitespac.to_raw(), 7);
    assert_eq!(DeleteType::from_raw(DeleteType::Whitespac.to_raw()), Some(DeleteType::Whitespac));
    assert_eq!(DeleteType::from_raw(8), None);
    assert_eq!(DeleteType::from_raw(9999), None);
}

#[test]
fn round_trip_expander_style() {
    assert_eq!(ExpanderStyle::Collapsed.to_raw(), 0);
    assert_eq!(ExpanderStyle::from_raw(ExpanderStyle::Collapsed.to_raw()), Some(ExpanderStyle::Collapsed));
    assert_eq!(ExpanderStyle::SemiCollapsed.to_raw(), 1);
    assert_eq!(ExpanderStyle::from_raw(ExpanderStyle::SemiCollapsed.to_raw()), Some(ExpanderStyle::SemiCollapsed));
    assert_eq!(ExpanderStyle::SemiExpanded.to_raw(), 2);
    assert_eq!(ExpanderStyle::from_raw(ExpanderStyle::SemiExpanded.to_raw()), Some(ExpanderStyle::SemiExpanded));
    assert_eq!(ExpanderStyle::Expanded.to_raw(), 3);
    assert_eq!(ExpanderStyle::from_raw(ExpanderStyle::Expanded.to_raw()), Some(ExpanderStyle::Expanded));
    assert_eq!(ExpanderStyle::from_raw(4), None);
    assert_eq!(ExpanderStyle::from_raw(9999), None);
}

#[test]
fn round_trip_i_m_preedit_style() {
    assert_eq!(IMPreeditStyle::Nothing.to_raw(), 0);
    assert_eq!(IMPreeditStyle::from_raw(IMPreeditStyle::Nothing.to_raw()), Some(IMPreeditStyle::Nothing));
    assert_eq!(IMPreeditStyle::Callback.to_raw(), 1);
    assert_eq!(IMPreeditStyle::from_raw(IMPreeditStyle::Callback.to_raw()), Some(IMPreeditStyle::Callback));
    assert_eq!(IMPreeditStyle::NoPreedit.to_raw(), 2);
    assert_eq!(IMPreeditStyle::from_raw(IMPreeditStyle::NoPreedit.to_raw()), Some(IMPreeditStyle::NoPreedit));
    assert_eq!(IMPreeditStyle::from_raw(3), None);
    assert_eq!(IMPreeditStyle::from_raw(9999), None);
}

#[test]
fn round_trip_i_m_status_style() {
    assert_eq!(IMStatusStyle::Nothing.to_raw(), 0);
    assert_eq!(IMStatusStyle::from_raw(IMStatusStyle::Nothing.to_raw()), Some(IMStatusStyle::Nothing));
    assert_eq!(IMStatusStyle::Callback.to_raw(), 1);
    assert_eq!(IMStatusStyle::from_raw(IMStatusStyle::Callback.to_raw()), Some(IMStatusStyle::Callback));
    assert_eq!(IMStatusStyle::NoStatus.to_raw(), 2);
    assert_eq!(IMStatusStyle::from_raw(IMStatusStyle::NoStatus.to_raw()), Some(IMStatusStyle::NoStatus));
    assert_eq!(IMStatusStyle::from_raw(3), None);
    assert_eq!(IMStatusStyle::from_raw(9999), None);
}

#[test]
fn round_trip_justification() {
    assert_eq!(Justification::Left.to_raw(), 0);
    assert_eq!(Justification::from_raw(Justification::Left.to_raw()), Some(Justification::Left));
    assert_eq!(Justification::Right.to_raw(), 1);
    assert_eq!(Justification::from_raw(Justification::Right.to_raw()), Some(Justification::Right));
    assert_eq!(Justification::Center.to_raw(), 2);
    assert_eq!(Justification::from_raw(Justification::Center.to_raw()), Some(Justification::Center));
    assert_eq!(Justification::Fill.to_raw(), 3);
    assert_eq!(Justification::from_raw(Justification::Fill.to_raw()), Some(Justification::Fill));
    assert_eq!(Justification::from_raw(4), None);
    assert_eq!(Justification::from_raw(9999), None);
}

#[test]
fn round_trip_movement_step() {
    assert_eq!(MovementStep::LogicalPosition.to_raw(), 0);
    assert_eq!(MovementStep::from_raw(MovementStep::LogicalPosition.to_raw()), Some(MovementStep::LogicalPosition));
    assert_eq!(MovementStep::VisualPositions.to_raw(), 1);
    assert_eq!(MovementStep::from_raw(MovementStep::VisualPositions.to_raw()), Some(MovementStep::VisualPositions));
    assert_eq!(MovementStep::Words.to_raw(), 2);
    assert_eq!(MovementStep::from_raw(MovementStep::Words.to_raw()), Some(MovementStep::Words));
    assert_eq!(MovementStep::DisplayLines.to_raw(), 3);
    assert_eq!(MovementStep::from_raw(MovementStep::DisplayLines.to_raw()), Some(MovementStep::DisplayLines));
    assert_eq!(MovementStep::DisplayLineEnds.to_raw(), 4);
    assert_eq!(MovementStep::from_raw(MovementStep::DisplayLineEnds.to_raw()), Some(MovementStep::DisplayLineEnds));
    assert_eq!(MovementStep::Paragraphs.to_raw(), 5);
    assert_eq!(MovementStep::from_raw(MovementStep::Paragraphs.to_raw()), Some(MovementStep::Paragraphs));
    assert_eq!(MovementStep::ParagraphEnds.to_raw(), 6);
    assert_eq!(MovementStep::from_raw(MovementStep::ParagraphEnds.to_raw()), Some(MovementStep::ParagraphEnds));
    assert_eq!(MovementStep::Pages.to_raw(), 7);
    assert_eq!(MovementStep::from_raw(MovementStep::Pages.to_raw()), Some(MovementStep::Pages));
    assert_eq!(MovementStep::BufferEnds.to_raw(), 8);
    assert_eq!(MovementStep::from_raw(MovementStep::BufferEnds.to_raw()), Some(MovementStep::BufferEnds));
    assert_eq!(MovementStep::HorizontalPages.to_raw(), 9);
    assert_eq!(MovementStep::from_raw(MovementStep::HorizontalPages.to_raw()), Some(MovementStep::HorizontalPages));
    assert_eq!(MovementStep::from_raw(10), None);
    assert_eq!(MovementStep::from_raw(9999), None);
}

#[test]
fn round_trip_pack_type() {
    assert_eq!(PackType::Start.to_raw(), 0);
    assert_eq!(PackType::from_raw(PackType::Start.to_raw()), Some(PackType::Start));
    assert_eq!(PackType::End.to_raw(), 1);
    assert_eq!(PackType::from_raw(PackType::End.to_raw()), Some(PackType::End));
    assert_eq!(PackType::from_raw(2), None);
    assert_eq!(PackType::from_raw(9999), None);
}

#[test]
fn round_trip_path_priority_type() {
    assert_eq!(PathPriorityType::Lowest.to_raw(), 0);
    assert_eq!(PathPriorityType::from_raw(PathPriorityType::Lowest.to_raw()), Some(PathPriorityType::Lowest));
    assert_eq!(PathPriorityType::Gtk.to_raw(), 4);
    assert_eq!(PathPriorityType::from_raw(PathPriorityType::Gtk.to_raw()), Some(PathPriorityType::Gtk));
    assert_eq!(PathPriorityType::Application.to_raw(), 8);
    assert_eq!(PathPriorityType::from_raw(PathPriorityType::Application.to_raw()), Some(PathPriorityType::Application));
    assert_eq!(PathPriorityType::Theme.to_raw(), 10);
    assert_eq!(PathPriorityType::from_raw(PathPriorityType::Theme.to_raw()), Some(PathPriorityType::Theme));
    assert_eq!(PathPriorityType::Rc.to_raw(), 12);
    assert_eq!(PathPriorityType::from_raw(PathPriorityType::Rc.to_raw()), Some(PathPriorityType::Rc));
    assert_eq!(PathPriorityType::Highest.to_raw(), 15);
    assert_eq!(PathPriorityType::from_raw(PathPriorityType::Highest.to_raw()), Some(PathPriorityType::Highest));
    assert_eq!(PathPriorityType::from_raw(1), None);
    assert_eq!(PathPriorityType::from_raw(9999), None);
}

#[test]
fn round_trip_path_type() {
    assert_eq!(PathType::Widget.to_raw(), 0);
    assert_eq!(PathType::from_raw(PathType::Widget.to_raw()), Some(PathType::Widget));
    assert_eq!(PathType::WidgetClass.to_raw(), 1);
    assert_eq!(PathType::from_raw(PathType::WidgetClass.to_raw()), Some(PathType::WidgetClass));
    assert_eq!(PathType::Class.to_raw(), 2);
    assert_eq!(PathType::from_raw(PathType::Class.to_raw()), Some(PathType::Class));
    assert_eq!(PathType::from_raw(3), None);
    assert_eq!(PathType::from_raw(9999), None);
}

#[test]
fn round_trip_policy_type() {
    assert_eq!(PolicyType::Always.to_raw(), 0);
    assert_eq!(PolicyType::from_raw(PolicyType::Always.to_raw()), Some(PolicyType::Always));
    assert_eq!(PolicyType::Automatic.to_raw(), 1);
    assert_eq!(PolicyType::from_raw(PolicyType::Automatic.to_raw()), Some(PolicyType::Automatic));
    assert_eq!(PolicyType::Never.to_raw(), 2);
    assert_eq!(PolicyType::from_raw(PolicyType::Never.to_raw()), Some(PolicyType::Never));
    assert_eq!(PolicyType::from_raw(3), None);
    assert_eq!(PolicyType::from_raw(9999), None);
}

#[test]
fn round_trip_position_type() {
    assert_eq!(PositionType::Left.to_raw(), 0);
    assert_eq!(PositionType::from_raw(PositionType::Left.to_raw()), Some(PositionType::Left));
    assert_eq!(PositionType::Right.to_raw(), 1);
    assert_eq!(PositionType::from_raw(PositionType::Right.to_raw()), Some(PositionType::Right));
    assert_eq!(PositionType::Top.to_raw(), 2);
    assert_eq!(PositionType::from_raw(PositionType::Top.to_raw()), Some(PositionType::Top));
    assert_eq!(PositionType::Bottom.to_raw(), 3);
    assert_eq!(PositionType::from_raw(PositionType::Bottom.to_raw()), Some(PositionType::Bottom));
    assert_eq!(PositionType::from_raw(4), None);
    assert_eq!(PositionType::from_raw(9999), None);
}

#[test]
fn round_trip_relief_style() {
    assert_eq!(ReliefStyle::Normal.to_raw(), 0);
    assert_eq!(ReliefStyle::from_raw(ReliefStyle::Normal.to_raw()), Some(ReliefStyle::Normal));
    assert_eq!(ReliefStyle::Half.to_raw(), 1);
    assert_eq!(ReliefStyle::from_raw(ReliefStyle::Half.to_raw()), Some(ReliefStyle::Half));
    assert_eq!(ReliefStyle::NoRelief.to_raw(), 2);
    assert_eq!(ReliefStyle::from_raw(ReliefStyle::NoRelief.to_raw()), Some(ReliefStyle::NoRelief));
    assert_eq!(ReliefStyle::from_raw(3), None);
    assert_eq!(ReliefStyle::from_raw(9999), None);
}

#[test]
fn round_trip_scroll_step() {
    assert_eq!(ScrollStep::Steps.to_raw(), 0);
    assert_eq!(ScrollStep::from_raw(ScrollStep::Steps.to_raw()), Some(ScrollStep::Steps));
    assert_eq!(ScrollStep::Pages.to_raw(), 1);
    assert_eq!(ScrollStep::from_raw(ScrollStep::Pages.to_raw()), Some(ScrollStep::Pages));
    assert_eq!(ScrollStep::Ends.to_raw(), 2);
    assert_eq!(ScrollStep::from_raw(ScrollStep::Ends.to_raw()), Some(ScrollStep::Ends));
    assert_eq!(ScrollStep::HorizontalSteps.to_raw(), 3);
    assert_eq!(ScrollStep::from_raw(ScrollStep::HorizontalSteps.to_raw()), Some(ScrollStep::HorizontalSteps));
    assert_eq!(ScrollStep::HorizontalPages.to_raw(), 4);
    assert_eq!(ScrollStep::from_raw(ScrollStep::HorizontalPages.to_raw()), Some(ScrollStep::HorizontalPages));
    assert_eq!(ScrollStep::HorizontalEnds.to_raw(), 5);
    assert_eq!(ScrollStep::from_raw(ScrollStep::HorizontalEnds.to_raw()), Some(ScrollStep::HorizontalEnds));
    assert_eq!(ScrollStep::from_raw(6), None);
    assert_eq!(ScrollStep::from_raw(9999), None);
}

#[test]
fn round_trip_scroll_type() {
    assert_eq!(ScrollType::NoScroll.to_raw(), 0);
    assert_eq!(ScrollType::from_raw(ScrollType::NoScroll.to_raw()), Some(ScrollType::NoScroll));
    assert_eq!(ScrollType::Jump.to_raw(), 1);
    assert_eq!(ScrollType::from_raw(ScrollType::Jump.to_raw()), Some(ScrollType::Jump));
    assert_eq!(ScrollType::StepBackward.to_raw(), 2);
    assert_eq!(ScrollType::from_raw(ScrollType::StepBackward.to_raw()), Some(ScrollType::StepBackward));
    assert_eq!(ScrollType::StepForward.to_raw(), 3);
    assert_eq!(ScrollType::from_raw(ScrollType::StepForward.to_raw()), Some(ScrollType::StepForward));
    assert_eq!(ScrollType::PageBackward.to_raw(), 4);
    assert_eq!(ScrollType::from_raw(ScrollType::PageBackward.to_raw()), Some(ScrollType::PageBackward));
    assert_eq!(ScrollType::PageForward.to_raw(), 5);
    assert_eq!(ScrollType::from_raw(ScrollType::PageForward.to_raw()), Some(ScrollType::PageForward));
    assert_eq!(ScrollType::StepUp.to_raw(), 6);
    assert_eq!(ScrollType::from_raw(ScrollType::StepUp.to_raw()), Some(ScrollType::StepUp));
    assert_eq!(ScrollType::StepDown.to_raw(), 7);
    assert_eq!(ScrollType::from_raw(ScrollType::StepDown.to_raw()), Some(ScrollType::StepDown));
    assert_eq!(ScrollType::PageUp.to_raw(), 8);
    assert_eq!(ScrollType::from_raw(ScrollType::PageUp.to_raw()), Some(ScrollType::PageUp));
    assert_eq!(ScrollType::PageDown.to_raw(), 9);
    assert_eq!(ScrollType::from_raw(ScrollType::PageDown.to_raw()), Some(ScrollType::PageDown));
    assert_eq!(ScrollType::StepLeft.to_raw(), 10);
    assert_eq!(ScrollType::from_raw(ScrollType::StepLeft.to_raw()), Some(ScrollType::StepLeft));
    assert_eq!(ScrollType::StepRight.to_raw(), 11);
    assert_eq!(ScrollType::from_raw(ScrollType::StepRight.to_raw()), Some(ScrollType::StepRight));
    assert_eq!(ScrollType::PageLeft.to_raw(), 12);
    assert_eq!(ScrollType::from_raw(ScrollType::PageLeft.to_raw()), Some(ScrollType::PageLeft));
    assert_eq!(ScrollType::PageRight.to_raw(), 13);
    assert_eq!(ScrollType::from_raw(ScrollType::PageRight.to_raw()), Some(ScrollType::PageRight));
    assert_eq!(ScrollType::Start.to_raw(), 14);
    assert_eq!(ScrollType::from_raw(ScrollType::Start.to_raw()), Some(ScrollType::Start));
    assert_eq!(ScrollType::End.to_raw(), 15);
    assert_eq!(ScrollType::from_raw(ScrollType::End.to_raw()), Some(ScrollType::End));
    assert_eq!(ScrollType::from_raw(16), None);
    assert_eq!(ScrollType::from_raw(9999), None);
}

#[test]
fn round_trip_selection_mode() {
    assert_eq!(SelectionMode::NoSelection.to_raw(), 0);
    assert_eq!(SelectionMode::from_raw(SelectionMode::NoSelection.to_raw()), Some(SelectionMode::NoSelection));
    assert_eq!(SelectionMode::Single.to_raw(), 1);
    assert_eq!(SelectionMode::from_raw(SelectionMode::Single.to_raw()), Some(SelectionMode::Single));
    assert_eq!(SelectionMode::Browse.to_raw(), 2);
    assert_eq!(SelectionMode::from_raw(SelectionMode::Browse.to_raw()), Some(SelectionMode::Browse));
    assert_eq!(SelectionMode::Multiple.to_raw(), 3);
    assert_eq!(SelectionMode::from_raw(SelectionMode::Multiple.to_raw()), Some(SelectionMode::Multiple));
    assert_eq!(SelectionMode::from_raw(4), None);
    assert_eq!(SelectionMode::from_raw(9999), None);
}

#[test]
fn round_trip_shadow_type() {
    assert_eq!(ShadowType::NoShadow.to_raw(), 0);
    assert_eq!(ShadowType::from_raw(ShadowType::NoShadow.to_raw()), Some(ShadowType::NoShadow));
    assert_eq!(ShadowType::Im.to_raw(), 1);
    assert_eq!(ShadowType::from_raw(ShadowType::Im.to_raw()), Some(ShadowType::Im));
    assert_eq!(ShadowType::Out.to_raw(), 2);
    assert_eq!(ShadowType::from_raw(ShadowType::Out.to_raw()), Some(ShadowType::Out));
    assert_eq!(ShadowType::EtchedIn.to_raw(), 3);
    assert_eq!(ShadowType::from_raw(ShadowType::EtchedIn.to_raw()), Some(ShadowType::EtchedIn));
    assert_eq!(ShadowType::EtchedOut.to_raw(), 4);
    assert_eq!(ShadowType::from_raw(ShadowType::EtchedOut.to_raw()), Some(ShadowType::EtchedOut));
    assert_eq!(ShadowType::from_raw(5), None);
    assert_eq!(ShadowType::from_raw(9999), None);
}

#[test]
fn round_trip_state_type() {
    assert_eq!(StateType::Normal.to_raw(), 0);
    assert_eq!(StateType::from_raw(StateType::Normal.to_raw()), Some(StateType::Normal));
    assert_eq!(StateType::Active.to_raw(), 1);
    assert_eq!(StateType::from_raw(StateType::Active.to_raw()), Some(StateType::Active));
    assert_eq!(StateType::Prelight.to_raw(), 2);
    assert_eq!(StateType::from_raw(StateType::Prelight.to_raw()), Some(StateType::Prelight));
    assert_eq!(StateType::Selected.to_raw(), 3);
    assert_eq!(StateType::from_raw(StateType::Selected.to_raw()), Some(StateType::Selected));
    assert_eq!(StateType::Insensitive.to_raw(), 4);
    assert_eq!(StateType::from_raw(StateType::Insensitive.to_raw()), Some(StateType::Insensitive));
    assert_eq!(StateType::Inconsistent.to_raw(), 5);
    assert_eq!(StateType::from_raw(StateType::Inconsistent.to_raw()), Some(StateType::Inconsistent));
    assert_eq!(StateType::Focused.to_raw(), 6);
    assert_eq!(StateType::from_raw(StateType::Focused.to_raw()), Some(StateType::Focused));
    assert_eq!(StateType::from_raw(7), None);
    assert_eq!(StateType::from_raw(9999), None);
}

#[test]
fn round_trip_toolbar_style() {
    assert_eq!(ToolbarStyle::Icons.to_raw(), 0);
    assert_eq!(ToolbarStyle::from_raw(ToolbarStyle::Icons.to_raw()), Some(ToolbarStyle::Icons));
    assert_eq!(ToolbarStyle::Text.to_raw(), 1);
    assert_eq!(ToolbarStyle::from_raw(ToolbarStyle::Text.to_raw()), Some(ToolbarStyle::Text));
    assert_eq!(ToolbarStyle::Both.to_raw(), 2);
    assert_eq!(ToolbarStyle::from_raw(ToolbarStyle::Both.to_raw()), Some(ToolbarStyle::Both));
    assert_eq!(ToolbarStyle::BothHoriz.to_raw(), 3);
    assert_eq!(ToolbarStyle::from_raw(ToolbarStyle::BothHoriz.to_raw()), Some(ToolbarStyle::BothHoriz));
    assert_eq!(ToolbarStyle::from_raw(4), None);
    assert_eq!(ToolbarStyle::from_raw(9999), None);
}

#[test]
fn round_trip_icon_size() {
    assert_eq!(IconSize::Invalid.to_raw(), 0);
    assert_eq!(IconSize::from_raw(IconSize::Invalid.to_raw()), Some(IconSize::Invalid));
    assert_eq!(IconSize::Memu.to_raw(), 1);
    assert_eq!(IconSize::from_raw(IconSize::Memu.to_raw()), Some(IconSize::Memu));
    assert_eq!(IconSize::SmallToolbar.to_raw(), 2);
    assert_eq!(IconSize::from_raw(IconSize::SmallToolbar.to_raw()), Some(IconSize::SmallToolbar));
    assert_eq!(IconSize::LargeToolbar.to_raw(), 3);
    assert_eq!(IconSize::from_raw(IconSize::LargeToolbar.to_raw()), Some(IconSize::LargeToolbar));
    assert_eq!(IconSize::Button.to_raw(), 4);
    assert_eq!(IconSize::from_raw(IconSize::Button.to_raw()), Some(IconSize::Button));
    assert_eq!(IconSize::Dnd.to_raw(), 5);
    assert_eq!(IconSize::from_raw(IconSize::Dnd.to_raw()), Some(IconSize::Dnd));
    assert_eq!(IconSize::Disalog.to_raw(), 6);
    assert_eq!(IconSize::from_raw(IconSize::Disalog.to_raw()), Some(IconSize::Disalog));
    assert_eq!(IconSize::from_raw(7), None);
    assert_eq!(IconSize::from_raw(9999), None);
}

#[test]
fn round_trip_entry_icon_position() {
    assert_eq!(EntryIconPosition::Primary.to_raw(), 0);
    assert_eq!(EntryIconPosition::from_raw(EntryIconPosition::Primary.to_raw()), Some(EntryIconPosition::Primary));
    assert_eq!(EntryIconPosition::Secondary.to_raw(), 1);
    assert_eq!(EntryIconPosition::from_raw(EntryIconPosition::Secondary.to_raw()), Some(EntryIconPosition::Secondary));
    assert_eq!(EntryIconPosition::from_raw(2), None);
    assert_eq!(EntryIconPosition::from_raw(9999), None);
}

#[test]
fn round_trip_input_purpose() {
    assert_eq!(InputPurpose::FreeForm.to_raw(), 0);
    assert_eq!(InputPurpose::from_raw(InputPurpose::FreeForm.to_raw()), Some(InputPurpose::FreeForm));
    assert_eq!(InputPurpose::Alpha.to_raw(), 1);
    assert_eq!(InputPurpose::from_raw(InputPurpose::Alpha.to_raw()), Some(InputPurpose::Alpha));
    assert_eq!(InputPurpose::Digits.to_raw(), 2);
    assert_eq!(InputPurpose::from_raw(InputPurpose::Digits.to_raw()), Some(InputPurpose::Digits));
    assert_eq!(InputPurpose::Number.to_raw(), 3);
    assert_eq!(InputPurpose::from_raw(InputPurpose::Number.to_raw()), Some(InputPurpose::Number));
    assert_eq!(InputPurpose::Phone.to_raw(), 4);
    assert_eq!(InputPurpose::from_raw(InputPurpose::Phone.to_raw()), Some(InputPurpose::Phone));
    assert_eq!(InputPurpose::Url.to_raw(), 5);
    assert_eq!(InputPurpose::from_raw(InputPurpose::Url.to_raw()), Some(InputPurpose::Url));
    assert_eq!(InputPurpose::Email.to_raw(), 6);
    assert_eq!(InputPurpose::from_raw(InputPurpose::Email.to_raw()), Some(InputPurpose::Email));
    assert_eq!(InputPurpose::Name.to_raw(), 7);
    assert_eq!(InputPurpose::from_raw(InputPurpose::Name.to_raw()), Some(InputPurpose::Name));
    assert_eq!(InputPurpose::Password.to_raw(), 8);
    assert_eq!(InputPurpose::from_raw(InputPurpose::Password.to_raw()), Some(InputPurpose::Password));
    assert_eq!(InputPurpose::Pin.to_raw(), 9);
    assert_eq!(InputPurpose::from_raw(InputPurpose::Pin.to_raw()), Some(InputPurpose::Pin));
    assert_eq!(InputPurpose::from_raw(10), None);
    assert_eq!(InputPurpose::from_raw(9999), None);
}

#[test]
fn round_trip_image_type() {
    assert_eq!(ImageType::Empty.to_raw(), 0);
    assert_eq!(ImageType::from_raw(ImageType::Empty.to_raw()), Some(ImageType::Empty));
    assert_eq!(ImageType::Pixbuf.to_raw(), 1);
    assert_eq!(ImageType::from_raw(ImageType::Pixbuf.to_raw()), Some(ImageType::Pixbuf));
    assert_eq!(ImageType::Stock.to_raw(), 2);
    assert_eq!(ImageType::from_raw(ImageType::Stock.to_raw()), Some(ImageType::Stock));
    assert_eq!(ImageType::IconSet.to_raw(), 3);
    assert_eq!(ImageType::from_raw(ImageType::IconSet.to_raw()), Some(ImageType::IconSet));
    assert_eq!(ImageType::Animation.to_raw(), 4);
    assert_eq!(ImageType::from_raw(ImageType::Animation.to_raw()), Some(ImageType::Animation));
    assert_eq!(ImageType::IconName.to_raw(), 5);
    assert_eq!(ImageType::from_raw(ImageType::IconName.to_raw()), Some(ImageType::IconName));
    assert_eq!(ImageType::GIcon.to_raw(), 6);
    assert_eq!(ImageType::from_raw(ImageType::GIcon.to_raw()), Some(ImageType::GIcon));
    assert_eq!(ImageType::Surface.to_raw(), 7);
    assert_eq!(ImageType::from_raw(ImageType::Surface.to_raw()), Some(ImageType::Surface));
    assert_eq!(ImageType::from_raw(8), None);
    assert_eq!(ImageType::from_raw(9999), None);
}

#[test]
fn round_trip_spin_type() {
    assert_eq!(SpinType::StepForward.to_raw(), 0);
    assert_eq!(SpinType::from_raw(SpinType::StepForward.to_raw()), Some(SpinType::StepForward));
    assert_eq!(SpinType::StepBackward.to_raw(), 1);
    assert_eq!(SpinType::from_raw(SpinType::StepBackward.to_raw()), Some(SpinType::StepBackward));
    assert_eq!(SpinType::PageForward.to_raw(), 2);
    assert_eq!(SpinType::from_raw(SpinType::PageForward.to_raw()), Some(SpinType::PageForward));
    assert_eq!(SpinType::PageBackward.to_raw(), 3);
    assert_eq!(SpinType::from_raw(SpinType::PageBackward.to_raw()), Some(SpinType::PageBackward));
    assert_eq!(SpinType::Home.to_raw(), 4);
    assert_eq!(SpinType::from_raw(SpinType::Home.to_raw()), Some(SpinType::Home));
    assert_eq!(SpinType::End.to_raw(), 5);
    assert_eq!(SpinType::from_raw(SpinType::End.to_raw()), Some(SpinType::End));
    assert_eq!(SpinType::UserDefined.to_raw(), 6);
    assert_eq!(SpinType::from_raw(SpinType::UserDefined.to_raw()), Some(SpinType::UserDefined));
    assert_eq!(SpinType::from_raw(7), None);
    assert_eq!(SpinType::from_raw(9999), None);
}

#[test]
fn round_trip_spin_button_update_policy() {
    assert_eq!(SpinButtonUpdatePolicy::Always.to_raw(), 0);
    assert_eq!(SpinButtonUpdatePolicy::from_raw(SpinButtonUpdatePolicy::Always.to_raw()), Some(SpinButtonUpdatePolicy::Always));
    assert_eq!(SpinButtonUpdatePolicy::IfValid.to_raw(), 1);
    assert_eq!(SpinButtonUpdatePolicy::from_raw(SpinButtonUpdatePolicy::IfValid.to_raw()), Some(SpinButtonUpdatePolicy::IfValid));
    assert_eq!(SpinButtonUpdatePolicy::from_raw(2), None);
    assert_eq!(SpinButtonUpdatePolicy::from_raw(9999), None);
}

#[test]
fn round_trip_level_bar_mode() {
    assert_eq!(LevelBarMode::Continuous.to_raw(), 0);
    assert_eq!(LevelBarMode::from_raw(LevelBarMode::Continuous.to_raw()), Some(LevelBarMode::Continuous));
    assert_eq!(LevelBarMode::Discrete.to_raw(), 1);
    assert_eq!(LevelBarMode::from_raw(LevelBarMode::Discrete.to_raw()), Some(LevelBarMode::Discrete));
    assert_eq!(LevelBarMode::from_raw(2), None);
    assert_eq!(LevelBarMode::from_raw(9999), None);
}

#[test]
fn round_trip_message_type() {
    assert_eq!(MessageType::Info.to_raw(), 0);
    assert_eq!(MessageType::from_raw(MessageType::Info.to_raw()), Some(MessageType::Info));
    assert_eq!(MessageType::Warning.to_raw(), 1);
    assert_eq!(MessageType::from_raw(MessageType::Warning.to_raw()), Some(MessageType::Warning));
    assert_eq!(MessageType::Question.to_raw(), 2);
    assert_eq!(MessageType::from_raw(MessageType::Question.to_raw()), Some(MessageType::Question));
    assert_eq!(MessageType::Error.to_raw(), 3);
    assert_eq!(MessageType::from_raw(MessageType::Error.to_raw()), Some(MessageType::Error));
    assert_eq!(MessageType::Other.to_raw(), 4);
    assert_eq!(MessageType::from_raw(MessageType::Other.to_raw()), Some(MessageType::Other));
    assert_eq!(MessageType::from_raw(5), None);
    assert_eq!(MessageType::from_raw(9999), None);
}

#[test]
fn round_trip_dialog_flags() {
    assert_eq!(DialogFlags::Modal.to_raw(), 0);
    assert_eq!(DialogFlags::from_raw(DialogFlags::Modal.to_raw()), Some(DialogFlags::Modal));
    assert_eq!(DialogFlags::DestroyWithParents.to_raw(), 1);
    assert_eq!(DialogFlags::from_raw(DialogFlags::DestroyWithParents.to_raw()), Some(DialogFlags::DestroyWithParents));
    assert_eq!(DialogFlags::UseHeaderBar.to_raw(), 2);
    assert_eq!(DialogFlags::from_raw(DialogFlags::UseHeaderBar.to_raw()), Some(DialogFlags::UseHeaderBar));
    assert_eq!(DialogFlags::from_raw(3), None);
    assert_eq!(DialogFlags::from_raw(9999), None);
}

#[test]
fn round_trip_license() {
    assert_eq!(License::Unknown.to_raw(), 0);
    assert_eq!(License::from_raw(License::Unknown.to_raw()), Some(License::Unknown));
    assert_eq!(License::Custom.to_raw(), 1);
    assert_eq!(License::from_raw(License::Custom.to_raw()), Some(License::Custom));
    assert_eq!(License::GPL_2_0.to_raw(), 2);
    assert_eq!(License::from_raw(License::GPL_2_0.to_raw()), Some(License::GPL_2_0));
    assert_eq!(License::GPL_3_0.to_raw(), 3);
    assert_eq!(License::from_raw(License::GPL_3_0.to_raw()), Some(License::GPL_3_0));
    assert_eq!(License::LGPL_2_1.to_raw(), 4);
    assert_eq!(License::from_raw(License::LGPL_2_1.to_raw()), Some(License::LGPL_2_1));
    assert_eq!(License::LGPL_3_0.to_raw(), 5);
    assert_eq!(License::from_raw(License::LGPL_3_0.to_raw()), Some(License::LGPL_3_0));
    assert_eq!(License::BSD.to_raw(), 6);
    assert_eq!(License::from_raw(License::BSD.to_raw()), Some(License::BSD));
    assert_eq!(License::MIT_X11.to_raw(), 7);
    assert_eq!(License::from_raw(License::MIT_X11.to_raw()), Some(License::MIT_X11));
    assert_eq!(License::Artistic.to_raw(), 8);
    assert_eq!(License::from_raw(License::Artistic.to_raw()), Some(License::Artistic));
    assert_eq!(License::GPL_2_0_Only.to_raw(), 9);
    assert_eq!(License::from_raw(License::GPL_2_0_Only.to_raw()), Some(License::GPL_2_0_Only));
    assert_eq!(License::GPL_3_0_Only.to_raw(), 10);
    assert_eq!(License::from_raw(License::GPL_3_0_Only.to_raw()), Some(License::GPL_3_0_Only));
    assert_eq!(License::LGPL_2_1_Only.to_raw(), 11);
    assert_eq!(License::from_raw(License::LGPL_2_1_Only.to_raw()), Some(License::LGPL_2_1_Only));
    assert_eq!(License::LGPL_3_0_Only.to_raw(), 12);
    assert_eq!(License::from_raw(License::LGPL_3_0_Only.to_raw()), Some(License::LGPL_3_0_Only));
    assert_eq!(License::from_raw(13), None);
    assert_eq!(License::from_raw(9999), None);
}

#[test]
fn round_trip_response_type() {
    assert_eq!(ResponseType::NoResponse.to_raw(), -1);
    assert_eq!(ResponseType::from_raw(ResponseType::NoResponse.to_raw()), Some(ResponseType::NoResponse));
    assert_eq!(ResponseType::Reject.to_raw(), -2);
    assert_eq!(ResponseType::from_raw(ResponseType::Reject.to_raw()), Some(ResponseType::Reject));
    assert_eq!(ResponseType::Accept.to_raw(), -3);
    assert_eq!(ResponseType::from_raw(ResponseType::Accept.to_raw()), Some(ResponseType::Accept));
    assert_eq!(ResponseType::DeleteEvent.to_raw(), -4);
    assert_eq!(ResponseType::from_raw(ResponseType::DeleteEvent.to_raw()), Some(ResponseType::DeleteEvent));
    assert_eq!(ResponseType::Okay.to_raw(), -5);
    assert_eq!(ResponseType::from_raw(ResponseType::Okay.to_raw()), Some(ResponseType::Okay));
    assert_eq!(ResponseType::Cancel.to_raw(), -6);
    assert_eq!(ResponseType::from_raw(ResponseType::Cancel.to_raw()), Some(ResponseType::Cancel));
    assert_eq!(ResponseType::Close.to_raw(), -7);
    assert_eq!(ResponseType::from_raw(ResponseType::Close.to_raw()), Some(ResponseType::Close));
    assert_eq!(ResponseType::Yes.to_raw(), -8);
    assert_eq!(ResponseType::from_raw(ResponseType::Yes.to_raw()), Some(ResponseType::Yes));
    assert_eq!(ResponseType::No.to_raw(), -9);
    assert_eq!(ResponseType::from_raw(ResponseType::No.to_raw()), Some(ResponseType::No));
    assert_eq!(ResponseType::Apply.to_raw(), -10);
    assert_eq!(ResponseType::from_raw(ResponseType::Apply.to_raw()), Some(ResponseType::Apply));
    assert_eq!(ResponseType::Help.to_raw(), -11);
    assert_eq!(ResponseType::from_raw(ResponseType::Help.to_raw()), Some(ResponseType::Help));
    assert_eq!(ResponseType::from_raw(0), None);
    assert_eq!(ResponseType::from_raw(9999), None);
}

#[test]
fn round_trip_state_flags() {
    assert_eq!(StateFlags::Normal.to_raw(), 0);
    assert_eq!(StateFlags::from_raw(StateFlags::Normal.to_raw()), Some(StateFlags::Normal));
    assert_eq!(StateFlags::Active.to_raw(), 1);
    assert_eq!(StateFlags::from_raw(StateFlags::Active.to_raw()), Some(StateFlags::Active));
    assert_eq!(StateFlags::Prelight.to_raw(), 2);
    assert_eq!(StateFlags::from_raw(StateFlags::Prelight.to_raw()), Some(StateFlags::Prelight));
    assert_eq!(StateFlags::Selected.to_raw(), 4);
    assert_eq!(StateFlags::from_raw(StateFlags::Selected.to_raw()), Some(StateFlags::Selected));
    assert_eq!(StateFlags::Insensitive.to_raw(), 8);
    assert_eq!(StateFlags::from_raw(StateFlags::Insensitive.to_raw()), Some(StateFlags::Insensitive));
    assert_eq!(StateFlags::Inconsistent.to_raw(), 16);
    assert_eq!(StateFlags::from_raw(StateFlags::Inconsistent.to_raw()), Some(StateFlags::Inconsistent));
    assert_eq!(StateFlags::Focused.to_raw(), 32);
    assert_eq!(StateFlags::from_raw(StateFlags::Focused.to_raw()), Some(StateFlags::Focused));
    assert_eq!(StateFlags::BackDrop.to_raw(), 64);
    assert_eq!(StateFlags::from_raw(StateFlags::BackDrop.to_raw()), Some(StateFlags::BackDrop));
    assert_eq!(StateFlags::DirLTR.to_raw(), 128);
    assert_eq!(StateFlags::from_raw(StateFlags::DirLTR.to_raw()), Some(StateFlags::DirLTR));
    assert_eq!(StateFlags::DirRTL.to_raw(), 256);
    assert_eq!(StateFlags::from_raw(StateFlags::DirRTL.to_raw()), Some(StateFlags::DirRTL));
    assert_eq!(StateFlags::from_raw(3), None);
    assert_eq!(StateFlags::from_raw(9999), None);
}

#[test]
fn round_trip_accel_flags() {
    assert_eq!(AccelFlags::Visible.to_raw(), 1);
    assert_eq!(AccelFlags::from_raw(AccelFlags::Visible.to_raw()), Some(AccelFlags::Visible));
    assert_eq!(AccelFlags::Locked.to_raw(), 2);
    assert_eq!(AccelFlags::from_raw(AccelFlags::Locked.to_raw()), Some(AccelFlags::Locked));
    assert_eq!(AccelFlags::Mask.to_raw(), 7);
    assert_eq!(AccelFlags::from_raw(AccelFlags::Mask.to_raw()), Some(AccelFlags::Mask));
    assert_eq!(AccelFlags::from_raw(0), None);
    assert_eq!(AccelFlags::from_raw(9999), None);
}

#[test]
fn round_trip_attach_options() {
    assert_eq!(AttachOptions::Expand.to_raw(), 1);
    assert_eq!(AttachOptions::from_raw(AttachOptions::Expand.to_raw()), Some(AttachOptions::Expand));
    assert_eq!(AttachOptions::Shrink.to_raw(), 2);
    assert_eq!(AttachOptions::from_raw(AttachOptions::Shrink.to_raw()), Some(AttachOptions::Shrink));
    assert_eq!(AttachOptions::Fill.to_raw(), 4);
    assert_eq!(AttachOptions::from_raw(AttachOptions::Fill.to_raw()), Some(AttachOptions::Fill));
    assert_eq!(AttachOptions::from_raw(0), None);
    assert_eq!(AttachOptions::from_raw(9999), None);
}

#[test]
fn round_trip_junction_sides() {
    assert_eq!(JunctionSides::NoJunctions.to_raw(), 0);
    assert_eq!(JunctionSides::from_raw(JunctionSides::NoJunctions.to_raw()), Some(JunctionSides::NoJunctions));
    assert_eq!(JunctionSides::CornerTopleft.to_raw(), 1);
    assert_eq!(JunctionSides::from_raw(JunctionSides::CornerTopleft.to_raw()), Some(JunctionSides::CornerTopleft));
    assert_eq!(JunctionSides::CornerTopRight.to_raw(), 2);
    assert_eq!(JunctionSides::from_raw(JunctionSides::CornerTopRight.to_raw()), Some(JunctionSides::CornerTopRight));
    assert_eq!(JunctionSides::CornerBottomLeft.to_raw(), 4);
    assert_eq!(JunctionSides::from_raw(JunctionSides::CornerBottomLeft.to_raw()), Some(JunctionSides::CornerBottomLeft));
    assert_eq!(JunctionSides::CornerBottomRight.to_raw(), 8);
    assert_eq!(JunctionSides::from_raw(JunctionSides::CornerBottomRight.to_raw()), Some(JunctionSides::CornerBottomRight));
    assert_eq!(JunctionSides::Top.to_raw(), 3);
    assert_eq!(JunctionSides::from_raw(JunctionSides::Top.to_raw()), Some(JunctionSides::Top));
    assert_eq!(JunctionSides::Bottom.to_raw(), 12);
    assert_eq!(JunctionSides::from_raw(JunctionSides::Bottom.to_raw()), Some(JunctionSides::Bottom));
    assert_eq!(JunctionSides::Left.to_raw(), 5);
    assert_eq!(JunctionSides::from_raw(JunctionSides::Left.to_raw()), Some(JunctionSides::Left));
    assert_eq!(JunctionSides::Right.to_raw(), 10);
    assert_eq!(JunctionSides::from_raw(JunctionSides::Right.to_raw()), Some(JunctionSides::Right));
    assert_eq!(JunctionSides::from_raw(6), None);
    assert_eq!(JunctionSides::from_raw(9999), None);
}

#[test]
fn round_trip_region_flags() {
    assert_eq!(RegionFlags::Even.to_raw(), 1);
    assert_eq!(RegionFlags::from_raw(RegionFlags::Even.to_raw()), Some(RegionFlags::Even));
    assert_eq!(RegionFlags::Odd.to_raw(), 2);
    assert_eq!(RegionFlags::from_raw(RegionFlags::Odd.to_raw()), Some(RegionFlags::Odd));
    assert_eq!(RegionFlags::First.to_raw(), 4);
    assert_eq!(RegionFlags::from_raw(RegionFlags::First.to_raw()), Some(RegionFlags::First));
    assert_eq!(RegionFlags::Last.to_raw(), 8);
    assert_eq!(RegionFlags::from_raw(RegionFlags::Last.to_raw()), Some(RegionFlags::Last));
    assert_eq!(RegionFlags::Only.to_raw(), 16);
    assert_eq!(RegionFlags::from_raw(RegionFlags::Only.to_raw()), Some(RegionFlags::Only));
    assert_eq!(RegionFlags::Sorted.to_raw(), 32);
    assert_eq!(RegionFlags::from_raw(RegionFlags::Sorted.to_raw()), Some(RegionFlags::Sorted));
    assert_eq!(RegionFlags::from_raw(0), None);
    assert_eq!(RegionFlags::from_raw(9999), None);
}

#[test]
fn round_trip_input_hints() {
    assert_eq!(InputHints::NoHints.to_raw(), 0);
    assert_eq!(InputHints::from_raw(InputHints::NoHints.to_raw()), Some(InputHints::NoHints));
    assert_eq!(InputHints::Spellcheck.to_raw(), 1);
    assert_eq!(InputHints::from_raw(InputHints::Spellcheck.to_raw()), Some(InputHints::Spellcheck));
    assert_eq!(InputHints::NoSpellcheck.to_raw(), 2);
    assert_eq!(InputHints::from_raw(InputHints::NoSpellcheck.to_raw()), Some(InputHints::NoSpellcheck));
    assert_eq!(InputHints::WordCompletion.to_raw(), 4);
    assert_eq!(InputHints::from_raw(InputHints::WordCompletion.to_raw()), Some(InputHints::WordCompletion));
    assert_eq!(InputHints::Lowercase.to_raw(), 8);
    assert_eq!(InputHints::from_raw(InputHints::Lowercase.to_raw()), Some(InputHints::Lowercase));
    assert_eq!(InputHints::UppercaseChars.to_raw(), 16);
    assert_eq!(InputHints::from_raw(InputHints::UppercaseChars.to_raw()), Some(InputHints::UppercaseChars));
    assert_eq!(InputHints::UppercaseWords.to_raw(), 32);
    assert_eq!(InputHints::from_raw(InputHints::UppercaseWords.to_raw()), Some(InputHints::UppercaseWords));
    assert_eq!(InputHints::UppercaseSentences.to_raw(), 64);
    assert_eq!(InputHints::from_raw(InputHints::UppercaseSentences.to_raw()), Some(InputHints::UppercaseSentences));
    assert_eq!(InputHints::InhibitOsk.to_raw(), 128);
    assert_eq!(InputHints::from_raw(InputHints::InhibitOsk.to_raw()), Some(InputHints::InhibitOsk));
    assert_eq!(InputHints::from_raw(3), None);
    assert_eq!(InputHints::from_raw(9999), None);
}

#[test]
fn round_trip_calendar_display_options() {
    assert_eq!(CalendarDisplayOptions::ShowHeading.to_raw(), 1);
    assert_eq!(CalendarDisplayOptions::from_raw(CalendarDisplayOptions::ShowHeading.to_raw()), Some(CalendarDisplayOptions::ShowHeading));
    assert_eq!(CalendarDisplayOptions::ShowDayNames.to_raw(), 2);
    assert_eq!(CalendarDisplayOptions::from_raw(CalendarDisplayOptions::ShowDayNames.to_raw()), Some(CalendarDisplayOptions::ShowDayNames));
    assert_eq!(CalendarDisplayOptions::NoMonthChange.to_raw(), 4);
    assert_eq!(CalendarDisplayOptions::from_raw(CalendarDisplayOptions::NoMonthChange.to_raw()), Some(CalendarDisplayOptions::NoMonthChange));
    assert_eq!(CalendarDisplayOptions::ShowWeekNumbers.to_raw(), 8);
    assert_eq!(CalendarDisplayOptions::from_raw(CalendarDisplayOptions::ShowWeekNumbers.to_raw()), Some(CalendarDisplayOptions::ShowWeekNumbers));
    assert_eq!(CalendarDisplayOptions::ShowDetails.to_raw(), 32);
    assert_eq!(CalendarDisplayOptions::from_raw(CalendarDisplayOptions::ShowDetails.to_raw()), Some(CalendarDisplayOptions::ShowDetails));
    assert_eq!(CalendarDisplayOptions::from_raw(0), None);
    assert_eq!(CalendarDisplayOptions::from_raw(9999), None);
}

#[test]
fn round_trip_coverage_level() {
    assert_eq!(CoverageLevel::NotCovered.to_raw(), 0);
    assert_eq!(CoverageLevel::from_raw(CoverageLevel::NotCovered.to_raw()), Some(CoverageLevel::NotCovered));
    assert_eq!(CoverageLevel::Fallback.to_raw(), 1);
    assert_eq!(CoverageLevel::from_raw(CoverageLevel::Fallback.to_raw()), Some(CoverageLevel::Fallback));
    assert_eq!(CoverageLevel::Approximate.to_raw(), 2);
    assert_eq!(CoverageLevel::from_raw(CoverageLevel::Approximate.to_raw()), Some(CoverageLevel::Approximate));
    assert_eq!(CoverageLevel::Exact.to_raw(), 3);
    assert_eq!(CoverageLevel::from_raw(CoverageLevel::Exact.to_raw()), Some(CoverageLevel::Exact));
    assert_eq!(CoverageLevel::from_raw(4), None);
    assert_eq!(CoverageLevel::from_raw(-1), None);
}
