//! The decision logic of a responsive single-window form: which panel
//! arrangement, how many grid columns and which visual scale a window width
//! calls for, and how the form state changes under user input.
//!
//! Widths are whole physical width units (points times pixels per point);
//! scales are in hundredths, 100 standing for 1.0.
use vstd::prelude::*;

pub mod layout;
pub mod scale;
pub mod text;
pub mod view_model;

pub use layout::{column_count, distribute_cards, layout_mode, LayoutMode, ScaleBucket};
pub use scale::{ScaleDirective, ScalingMode};
pub use view_model::{DemoApp, FramePlan};

verus! {

} // verus!
