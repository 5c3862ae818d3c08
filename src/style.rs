use vstd::prelude::*;

use crate::geometry::{Size, UiRect};
use crate::val::Val;

verus! {

/// How items are aligned along the cross axis.
#[derive(Clone, Copy, Debug, PartialEq, Eq, Structural)]
pub enum AlignItems {
    /// Items are aligned at the start.
    FlexStart,
    /// Items are aligned at the end.
    FlexEnd,
    /// Items are aligned at the center.
    Center,
    /// Items are aligned at the baseline.
    Baseline,
    /// Items are stretched across the whole cross axis.
    Stretch,
}

impl Default for AlignItems {
    fn default() -> (r: AlignItems)
        ensures
            r == AlignItems::Stretch,
    {
        AlignItems::Stretch
    }
}

/// How one item is aligned along the cross axis; overrides its parent's [`AlignItems`].
#[derive(Clone, Copy, Debug, PartialEq, Eq, Structural)]
pub enum AlignSelf {
    /// Use the parent's [`AlignItems`].
    Auto,
    /// Aligned at the start.
    FlexStart,
    /// Aligned at the end.
    FlexEnd,
    /// Aligned at the center.
    Center,
    /// Aligned at the baseline.
    Baseline,
    /// Stretched across the whole cross axis.
    Stretch,
}

impl Default for AlignSelf {
    fn default() -> (r: AlignSelf)
        ensures
            r == AlignSelf::Auto,
    {
        AlignSelf::Auto
    }
}

/// How the lines of a wrapping container are distributed along the cross axis.
#[derive(Clone, Copy, Debug, PartialEq, Eq, Structural)]
pub enum AlignContent {
    /// Lines move toward the start of the cross axis.
    FlexStart,
    /// Lines move toward the end of the cross axis.
    FlexEnd,
    /// Lines move toward the center of the cross axis.
    Center,
    /// Lines stretch to fill the remaining space.
    Stretch,
    /// Remaining space goes between the lines.
    SpaceBetween,
    /// Remaining space goes around the lines.
    SpaceAround,
}

impl Default for AlignContent {
    fn default() -> (r: AlignContent)
        ensures
            r == AlignContent::Stretch,
    {
        AlignContent::Stretch
    }
}

/// The direction in which text and content flow.
#[derive(Clone, Copy, Debug, PartialEq, Eq, Structural)]
pub enum Direction {
    /// Inherited from the parent node.
    Inherit,
    /// Left to right.
    LeftToRight,
    /// Right to left.
    RightToLeft,
}

impl Default for Direction {
    fn default() -> (r: Direction)
        ensures
            r == Direction::Inherit,
    {
        Direction::Inherit
    }
}

/// Whether a node takes part in layout.
#[derive(Clone, Copy, Debug, PartialEq, Eq, Structural)]
pub enum Display {
    /// The node is laid out with the flexbox model.
    Flex,
    /// The node is neither laid out nor rendered, nor are its children.
    Collapsed,
}

impl Default for Display {
    fn default() -> (r: Display)
        ensures
            r == Display::Flex,
    {
        Display::Flex
    }
}

/// The orientation of the main axis.
#[derive(Clone, Copy, Debug, PartialEq, Eq, Structural)]
pub enum FlexDirection {
    /// Along the text direction.
    Row,
    /// From top to bottom.
    Column,
    /// Against the text direction.
    RowReverse,
    /// From bottom to top.
    ColumnReverse,
}

impl Default for FlexDirection {
    fn default() -> (r: FlexDirection)
        ensures
            r == FlexDirection::Row,
    {
        FlexDirection::Row
    }
}

/// How items are distributed along the main axis.
#[derive(Clone, Copy, Debug, PartialEq, Eq, Structural)]
pub enum JustifyContent {
    /// Pushed toward the start.
    FlexStart,
    /// Pushed toward the end.
    FlexEnd,
    /// Centered.
    Center,
    /// Remaining space goes between the items.
    SpaceBetween,
    /// Remaining space goes around the items.
    SpaceAround,
    /// Remaining space is spread evenly, edges included.
    SpaceEvenly,
}

impl Default for JustifyContent {
    fn default() -> (r: JustifyContent)
        ensures
            r == JustifyContent::FlexStart,
    {
        JustifyContent::FlexStart
    }
}

/// Whether content beyond a node's box is clipped.
#[derive(Clone, Copy, Debug, PartialEq, Eq, Structural)]
pub enum Overflow {
    /// Overflowing content is shown.
    Visible,
    /// Overflowing content is clipped.
    Hidden,
}

impl Default for Overflow {
    fn default() -> (r: Overflow)
        ensures
            r == Overflow::Visible,
    {
        Overflow::Visible
    }
}

/// How a node is positioned.
#[derive(Clone, Copy, Debug, PartialEq, Eq, Structural)]
pub enum PositionType {
    /// In the flow of its siblings.
    Relative,
    /// On its own, by its `position` edges; ignored by its siblings' flow.
    Absolute,
}

impl Default for PositionType {
    fn default() -> (r: PositionType)
        ensures
            r == PositionType::Relative,
    {
        PositionType::Relative
    }
}

/// Whether items stay on one line.
#[derive(Clone, Copy, Debug, PartialEq, Eq, Structural)]
pub enum FlexWrap {
    /// One line, overflowing if needed.
    NoWrap,
    /// Several lines if needed.
    Wrap,
    /// Several lines if needed, each new one before the previous.
    WrapReverse,
}

impl Default for FlexWrap {
    fn default() -> (r: FlexWrap)
        ensures
            r == FlexWrap::NoWrap,
    {
        FlexWrap::NoWrap
    }
}

/// A ratio of width to height, as `width : height`.
#[derive(Clone, Copy, Debug, PartialEq, Eq, Structural)]
pub struct AspectRatio {
    pub width: u32,
    pub height: u32,
}

/// The layout configuration of one UI node, read by the layout solver.
#[derive(Clone, Copy, Debug, PartialEq, Eq, Structural)]
pub struct Style {
    /// Whether the node takes part in layout.
    pub display: Display,
    /// Whether the node flows with its siblings or is positioned on its own.
    pub position_type: PositionType,
    /// The direction of the node's content.
    pub direction: Direction,
    /// The orientation of the main axis.
    pub flex_direction: FlexDirection,
    /// Whether the children wrap onto several lines.
    pub flex_wrap: FlexWrap,
    /// How the children are aligned along the cross axis.
    pub align_items: AlignItems,
    /// How this node is aligned along its parent's cross axis.
    pub align_self: AlignSelf,
    /// How wrapped lines are distributed along the cross axis.
    pub align_content: AlignContent,
    /// How the children are distributed along the main axis.
    pub justify_content: JustifyContent,
    /// The offsets of the node's edges; only for absolute positioning.
    pub position: UiRect,
    /// The space around the node, outside its border; percentages are of the parent's width.
    pub margin: UiRect,
    /// The space between the border and the content; percentages are of the parent's width.
    pub padding: UiRect,
    /// The width of the border; percentages are of the parent's width.
    pub border: UiRect,
    /// How much of the surplus space along the main axis the node takes, as a weight.
    pub flex_grow: u32,
    /// How much of the missing space along the main axis the node gives up, as a weight.
    pub flex_shrink: u32,
    /// The initial main size; where not `Auto` it overrides `size` on the main
    /// axis, within `min_size` and `max_size`.
    pub flex_basis: Val,
    /// The preferred size.
    pub size: Size,
    /// The minimum size; it wins over `max_size`.
    pub min_size: Size,
    /// The maximum size; it wins over `size`.
    pub max_size: Size,
    /// The ratio of width to height, if any.
    pub aspect_ratio: Option<AspectRatio>,
    /// Whether content beyond the node's box is clipped.
    pub overflow: Overflow,
    /// The spacing between columns (`width`) and rows (`height`); `Undefined` and `Auto` mean none.
    pub gap: Size,
}

impl Style {
    /// The style that a node has unless it says otherwise.
    pub open spec fn default_spec() -> Style {
        Style {
            display: Display::Flex,
            position_type: PositionType::Relative,
            direction: Direction::Inherit,
            flex_direction: FlexDirection::Row,
            flex_wrap: FlexWrap::NoWrap,
            align_items: AlignItems::Stretch,
            align_self: AlignSelf::Auto,
            align_content: AlignContent::Stretch,
            justify_content: JustifyContent::FlexStart,
            position: UiRect::all_undefined(),
            margin: UiRect::all_undefined(),
            padding: UiRect::all_undefined(),
            border: UiRect::all_undefined(),
            flex_grow: 0,
            flex_shrink: 1,
            flex_basis: Val::Auto,
            size: Size { width: Val::Auto, height: Val::Auto },
            min_size: Size { width: Val::Auto, height: Val::Auto },
            max_size: Size { width: Val::Auto, height: Val::Auto },
            aspect_ratio: None,
            overflow: Overflow::Visible,
            gap: Size { width: Val::Undefined, height: Val::Undefined },
        }
    }
}

impl Default for Style {
    /// Flex display, relative position, inherited direction, a row that does
    /// not wrap, stretched items and lines, items at the start, all edges
    /// `Undefined`, no growth, a shrink weight of one, `Auto` basis and sizes,
    /// no aspect ratio, visible overflow and no gap.
    fn default() -> (r: Style)
        ensures
            r == Style::default_spec(),
    {
        Style {
            display: Display::Flex,
            position_type: PositionType::Relative,
            direction: Direction::Inherit,
            flex_direction: FlexDirection::Row,
            flex_wrap: FlexWrap::NoWrap,
            align_items: AlignItems::Stretch,
            align_self: AlignSelf::Auto,
            align_content: AlignContent::Stretch,
            justify_content: JustifyContent::FlexStart,
            position: UiRect::all(Val::Undefined),
            margin: UiRect::all(Val::Undefined),
            padding: UiRect::all(Val::Undefined),
            border: UiRect::all(Val::Undefined),
            flex_grow: 0,
            flex_shrink: 1,
            flex_basis: Val::Auto,
            size: Size { width: Val::Auto, height: Val::Auto },
            min_size: Size { width: Val::Auto, height: Val::Auto },
            max_size: Size { width: Val::Auto, height: Val::Auto },
            aspect_ratio: None,
            overflow: Overflow::Visible,
            gap: Size { width: Val::Undefined, height: Val::Undefined },
        }
    }
}

impl Style {
    /// The default style, laid out as a row.
    pub fn row() -> (r: Style)
        ensures
            r == (Style {
                display: Display::Flex,
                flex_direction: FlexDirection::Row,
                ..Style::default_spec()
            }),
    {
        let mut style = Style::default();
        style.display = Display::Flex;
        style.flex_direction = FlexDirection::Row;
        style
    }

    /// The default style, laid out as a column.
    pub fn column() -> (r: Style)
        ensures
            r == (Style {
                display: Display::Flex,
                flex_direction: FlexDirection::Column,
                ..Style::default_spec()
            }),
    {
        let mut style = Style::default();
        style.display = Display::Flex;
        style.flex_direction = FlexDirection::Column;
        style
    }

    /// Sets `display`.
    pub fn display(self, val: Display) -> (r: Style)
        ensures
            r == (Style { display: val, ..self }),
    {
        let mut style = self;
        style.display = val;
        style
    }

    /// Sets `position_type`.
    pub fn position_type(self, val: PositionType) -> (r: Style)
        ensures
            r == (Style { position_type: val, ..self }),
    {
        let mut style = self;
        style.position_type = val;
        style
    }

    /// Sets `direction`.
    pub fn direction(self, val: Direction) -> (r: Style)
        ensures
            r == (Style { direction: val, ..self }),
    {
        let mut style = self;
        style.direction = val;
        style
    }

    /// Sets `flex_direction`.
    pub fn flex_direction(self, val: FlexDirection) -> (r: Style)
        ensures
            r == (Style { flex_direction: val, ..self }),
    {
        let mut style = self;
        style.flex_direction = val;
        style
    }

    /// Sets `flex_wrap`.
    pub fn flex_wrap(self, val: FlexWrap) -> (r: Style)
        ensures
            r == (Style { flex_wrap: val, ..self }),
    {
        let mut style = self;
        style.flex_wrap = val;
        style
    }

    /// Sets `align_items`.
    pub fn align_items(self, val: AlignItems) -> (r: Style)
        ensures
            r == (Style { align_items: val, ..self }),
    {
        let mut style = self;
        style.align_items = val;
        style
    }

    /// Sets `align_self`.
    pub fn align_self(self, val: AlignSelf) -> (r: Style)
        ensures
            r == (Style { align_self: val, ..self }),
    {
        let mut style = self;
        style.align_self = val;
        style
    }

    /// Sets `align_content`.
    pub fn align_content(self, val: AlignContent) -> (r: Style)
        ensures
            r == (Style { align_content: val, ..self }),
    {
        let mut style = self;
        style.align_content = val;
        style
    }

    /// Sets `justify_content`.
    pub fn justify_content(self, val: JustifyContent) -> (r: Style)
        ensures
            r == (Style { justify_content: val, ..self }),
    {
        let mut style = self;
        style.justify_content = val;
        style
    }

    /// Sets `position.left`.
    pub fn left(self, val: Val) -> (r: Style)
        ensures
            r == (Style { position: UiRect { left: val, ..self.position }, ..self }),
    {
        let mut style = self;
        style.position.left = val;
        style
    }

    /// Sets `position.right`.
    pub fn right(self, val: Val) -> (r: Style)
        ensures
            r == (Style { position: UiRect { right: val, ..self.position }, ..self }),
    {
        let mut style = self;
        style.position.right = val;
        style
    }

    /// Sets `position.top`.
    pub fn top(self, val: Val) -> (r: Style)
        ensures
            r == (Style { position: UiRect { top: val, ..self.position }, ..self }),
    {
        let mut style = self;
        style.position.top = val;
        style
    }

    /// Sets `position.bottom`.
    pub fn bottom(self, val: Val) -> (r: Style)
        ensures
            r == (Style { position: UiRect { bottom: val, ..self.position }, ..self }),
    {
        let mut style = self;
        style.position.bottom = val;
        style
    }

    /// Sets `position.left` and `position.right`.
    pub fn position_horizontal(self, val: Val) -> (r: Style)
        ensures
            r == (Style { position: UiRect { left: val, right: val, ..self.position }, ..self }),
    {
        let mut style = self;
        style.position.left = val;
        style.position.right = val;
        style
    }

    /// Sets `position.top` and `position.bottom`.
    pub fn position_vertical(self, val: Val) -> (r: Style)
        ensures
            r == (Style { position: UiRect { top: val, bottom: val, ..self.position }, ..self }),
    {
        let mut style = self;
        style.position.top = val;
        style.position.bottom = val;
        style
    }

    /// Sets all four edges of `position`.
    pub fn position(self, val: Val) -> (r: Style)
        ensures
            r == (Style { position: UiRect { left: val, right: val, top: val, bottom: val }, ..self }),
    {
        let mut style = self;
        style.position.left = val;
        style.position.right = val;
        style.position.top = val;
        style.position.bottom = val;
        style
    }

    /// Sets `margin.left`.
    pub fn margin_left(self, val: Val) -> (r: Style)
        ensures
            r == (Style { margin: UiRect { left: val, ..self.margin }, ..self }),
    {
        let mut style = self;
        style.margin.left = val;
        style
    }

    /// Sets `margin.right`.
    pub fn margin_right(self, val: Val) -> (r: Style)
        ensures
            r == (Style { margin: UiRect { right: val, ..self.margin }, ..self }),
    {
        let mut style = self;
        style.margin.right = val;
        style
    }

    /// Sets `margin.top`.
    pub fn margin_top(self, val: Val) -> (r: Style)
        ensures
            r == (Style { margin: UiRect { top: val, ..self.margin }, ..self }),
    {
        let mut style = self;
        style.margin.top = val;
        style
    }

    /// Sets `margin.bottom`.
    pub fn margin_bottom(self, val: Val) -> (r: Style)
        ensures
            r == (Style { margin: UiRect { bottom: val, ..self.margin }, ..self }),
    {
        let mut style = self;
        style.margin.bottom = val;
        style
    }

    /// Sets `margin.left` and `margin.right`.
    pub fn margin_horizontal(self, val: Val) -> (r: Style)
        ensures
            r == (Style { margin: UiRect { left: val, right: val, ..self.margin }, ..self }),
    {
        let mut style = self;
        style.margin.left = val;
        style.margin.right = val;
        style
    }

    /// Sets `margin.top` and `margin.bottom`.
    pub fn margin_vertical(self, val: Val) -> (r: Style)
        ensures
            r == (Style { margin: UiRect { top: val, bottom: val, ..self.margin }, ..self }),
    {
        let mut style = self;
        style.margin.top = val;
        style.margin.bottom = val;
        style
    }

    /// Sets all four edges of `margin`.
    pub fn margin(self, val: Val) -> (r: Style)
        ensures
            r == (Style { margin: UiRect { left: val, right: val, top: val, bottom: val }, ..self }),
    {
        let mut style = self;
        style.margin.left = val;
        style.margin.right = val;
        style.margin.top = val;
        style.margin.bottom = val;
        style
    }

    /// Sets `padding.left`.
    pub fn padding_left(self, val: Val) -> (r: Style)
        ensures
            r == (Style { padding: UiRect { left: val, ..self.padding }, ..self }),
    {
        let mut style = self;
        style.padding.left = val;
        style
    }

    /// Sets `padding.right`.
    pub fn padding_right(self, val: Val) -> (r: Style)
        ensures
            r == (Style { padding: UiRect { right: val, ..self.padding }, ..self }),
    {
        let mut style = self;
        style.padding.right = val;
        style
    }

    /// Sets `padding.top`.
    pub fn padding_top(self, val: Val) -> (r: Style)
        ensures
            r == (Style { padding: UiRect { top: val, ..self.padding }, ..self }),
    {
        let mut style = self;
        style.padding.top = val;
        style
    }

    /// Sets `padding.bottom`.
    pub fn padding_bottom(self, val: Val) -> (r: Style)
        ensures
            r == (Style { padding: UiRect { bottom: val, ..self.padding }, ..self }),
    {
        let mut style = self;
        style.padding.bottom = val;
        style
    }

    /// Sets `padding.left` and `padding.right`.
    pub fn padding_horizontal(self, val: Val) -> (r: Style)
        ensures
            r == (Style { padding: UiRect { left: val, right: val, ..self.padding }, ..self }),
    {
        let mut style = self;
        style.padding.left = val;
        style.padding.right = val;
        style
    }

    /// Sets `padding.top` and `padding.bottom`.
    pub fn padding_vertical(self, val: Val) -> (r: Style)
        ensures
            r == (Style { padding: UiRect { top: val, bottom: val, ..self.padding }, ..self }),
    {
        let mut style = self;
        style.padding.top = val;
        style.padding.bottom = val;
        style
    }

    /// Sets all four edges of `padding`.
    pub fn padding(self, val: Val) -> (r: Style)
        ensures
            r == (Style { padding: UiRect { left: val, right: val, top: val, bottom: val }, ..self }),
    {
        let mut style = self;
        style.padding.left = val;
        style.padding.right = val;
        style.padding.top = val;
        style.padding.bottom = val;
        style
    }

    /// Sets `border.left`.
    pub fn border_left(self, val: Val) -> (r: Style)
        ensures
            r == (Style { border: UiRect { left: val, ..self.border }, ..self }),
    {
        let mut style = self;
        style.border.left = val;
        style
    }

    /// Sets `border.right`.
    pub fn border_right(self, val: Val) -> (r: Style)
        ensures
            r == (Style { border: UiRect { right: val, ..self.border }, ..self }),
    {
        let mut style = self;
        style.border.right = val;
        style
    }

    /// Sets `border.top`.
    pub fn border_top(self, val: Val) -> (r: Style)
        ensures
            r == (Style { border: UiRect { top: val, ..self.border }, ..self }),
    {
        let mut style = self;
        style.border.top = val;
        style
    }

    /// Sets `border.bottom`.
    pub fn border_bottom(self, val: Val) -> (r: Style)
        ensures
            r == (Style { border: UiRect { bottom: val, ..self.border }, ..self }),
    {
        let mut style = self;
        style.border.bottom = val;
        style
    }

    /// Sets `border.left` and `border.right`.
    pub fn border_horizontal(self, val: Val) -> (r: Style)
        ensures
            r == (Style { border: UiRect { left: val, right: val, ..self.border }, ..self }),
    {
        let mut style = self;
        style.border.left = val;
        style.border.right = val;
        style
    }

    /// Sets `border.top` and `border.bottom`.
    pub fn border_vertical(self, val: Val) -> (r: Style)
        ensures
            r == (Style { border: UiRect { top: val, bottom: val, ..self.border }, ..self }),
    {
        let mut style = self;
        style.border.top = val;
        style.border.bottom = val;
        style
    }

    /// Sets all four edges of `border`.
    pub fn border(self, val: Val) -> (r: Style)
        ensures
            r == (Style { border: UiRect { left: val, right: val, top: val, bottom: val }, ..self }),
    {
        let mut style = self;
        style.border.left = val;
        style.border.right = val;
        style.border.top = val;
        style.border.bottom = val;
        style
    }

    /// Sets `flex_grow`.
    pub fn flex_grow(self, val: u32) -> (r: Style)
        ensures
            r == (Style { flex_grow: val, ..self }),
    {
        let mut style = self;
        style.flex_grow = val;
        style
    }

    /// Sets `flex_shrink`.
    pub fn flex_shrink(self, val: u32) -> (r: Style)
        ensures
            r == (Style { flex_shrink: val, ..self }),
    {
        let mut style = self;
        style.flex_shrink = val;
        style
    }

    /// Sets `flex_basis`.
    pub fn flex_basis(self, val: Val) -> (r: Style)
        ensures
            r == (Style { flex_basis: val, ..self }),
    {
        let mut style = self;
        style.flex_basis = val;
        style
    }

    /// Sets `size.width`.
    pub fn width(self, val: Val) -> (r: Style)
        ensures
            r == (Style { size: Size { width: val, ..self.size }, ..self }),
    {
        let mut style = self;
        style.size.width = val;
        style
    }

    /// Sets `size.height`.
    pub fn height(self, val: Val) -> (r: Style)
        ensures
            r == (Style { size: Size { height: val, ..self.size }, ..self }),
    {
        let mut style = self;
        style.size.height = val;
        style
    }

    /// Sets `min_size.width`.
    pub fn min_width(self, val: Val) -> (r: Style)
        ensures
            r == (Style { min_size: Size { width: val, ..self.min_size }, ..self }),
    {
        let mut style = self;
        style.min_size.width = val;
        style
    }

    /// Sets `min_size.height`.
    pub fn min_height(self, val: Val) -> (r: Style)
        ensures
            r == (Style { min_size: Size { height: val, ..self.min_size }, ..self }),
    {
        let mut style = self;
        style.min_size.height = val;
        style
    }

    /// Sets `max_size.width`.
    pub fn max_width(self, val: Val) -> (r: Style)
        ensures
            r == (Style { max_size: Size { width: val, ..self.max_size }, ..self }),
    {
        let mut style = self;
        style.max_size.width = val;
        style
    }

    /// Sets `max_size.height`.
    pub fn max_height(self, val: Val) -> (r: Style)
        ensures
            r == (Style { max_size: Size { height: val, ..self.max_size }, ..self }),
    {
        let mut style = self;
        style.max_size.height = val;
        style
    }

    /// Sets `aspect_ratio` to `val`.
    pub fn aspect_ratio(self, val: AspectRatio) -> (r: Style)
        ensures
            r == (Style { aspect_ratio: Some(val), ..self }),
    {
        let mut style = self;
        style.aspect_ratio = Some(val);
        style
    }

    /// Sets `overflow`.
    pub fn overflow(self, val: Overflow) -> (r: Style)
        ensures
            r == (Style { overflow: val, ..self }),
    {
        let mut style = self;
        style.overflow = val;
        style
    }

    /// Sets the spacing between rows, `gap.height`.
    pub fn row_gap(self, val: Val) -> (r: Style)
        ensures
            r == (Style { gap: Size { height: val, ..self.gap }, ..self }),
    {
        let mut style = self;
        style.gap.height = val;
        style
    }

    /// Sets the spacing between columns, `gap.width`.
    pub fn column_gap(self, val: Val) -> (r: Style)
        ensures
            r == (Style { gap: Size { width: val, ..self.gap }, ..self }),
    {
        let mut style = self;
        style.gap.width = val;
        style
    }

    /// Sets the spacing between both rows and columns.
    pub fn gap(self, val: Val) -> (r: Style)
        ensures
            r == (Style { gap: Size { width: val, height: val, ..self.gap }, ..self }),
    {
        let mut style = self;
        style.gap.width = val;
        style.gap.height = val;
        style
    }
}

} // verus!
