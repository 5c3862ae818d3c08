//! Layout-value algebra and node style schema for a flexbox-style UI layout.
//!
//! Lengths are held as whole logical pixels and whole percentage points, and
//! a percentage resolves against a reference size by integer division rounded
//! toward zero. Resolved lengths are `i64`, wide enough for any percentage of
//! any `i32` reference size.
//!
//! - [`val`]: the length type [`Val`] and its partial arithmetic.
//! - [`geometry`]: box edges ([`UiRect`]) and width/height pairs ([`Size`]).
//! - [`style`]: the layout configuration of a node ([`Style`]) and its enums.
//! - [`node`]: what the layout solver writes back, and the stacking order of
//!   nodes ([`ZIndex`], [`paint_order`]).
pub mod geometry;
pub mod node;
pub mod style;
pub mod val;

pub use geometry::{Size, UiRect};
pub use node::{paint_order, CalculatedClip, CalculatedSize, Node, PixelRect, PixelSize, ZIndex};
pub use style::{
    AlignContent, AlignItems, AlignSelf, AspectRatio, Direction, Display, FlexDirection, FlexWrap,
    JustifyContent, Overflow, PositionType, Style,
};
pub use val::{Val, ValArithmeticError};
