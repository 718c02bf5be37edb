//! Layout and interaction logic of a timeline editor widget.
//!
//! The widget keeps a clock (a playhead time and the time at the left edge of
//! the visible ruler), an ordered list of tracks, and turns one frame's
//! measurements and input into a list of drawing commands. Nothing here
//! touches a window or a GPU: the host measures, the library decides, the
//! host draws.
//!
//! Lengths are whole numbers of [`geometry::UNITS_PER_PIXEL`]ths of a pixel,
//! and the two user-editable factors are whole hundredths.

pub mod frame;
pub mod geometry;
pub mod ruler;
pub mod time;
pub mod timeline;
pub mod track;
