//! Tracks: the rows of the editor.
//!
//! A track has a display name and a fixed header height, names the row it is
//! shown in, and places its label in the middle of that row.

use crate::geometry::floor_div;
use crate::geometry::Point;
use vstd::prelude::*;
use vstd::string::StringExecFns;

verus! {

/// What the host measures in a row before the row's label is placed.
#[derive(Clone, Copy, Debug, PartialEq, Eq, Structural)]
pub struct HeadCell {
    /// Width of the row's content.
    pub width: i32,
    /// Width of the label's text.
    pub text_width: i32,
    /// Vertical position at which the next item would go.
    pub cursor_y: i32,
    /// Height of one line of text with its spacing.
    pub line_height: i32,
}

/// A label and where in its row it starts.
#[derive(Debug, PartialEq, Eq)]
pub struct HeadLabel {
    pub at: Point,
    pub text: String,
}

/// The start of a text of the measured width that is centred in a row of the
/// given height: half the free width in, half the free height below the
/// cursor, each rounded down.
pub open spec fn centered(cell: HeadCell, row_height: int) -> Point {
    Point {
        x: ((cell.width - cell.text_width) / 2) as i64,
        y: (cell.cursor_y + (row_height - cell.line_height) / 2) as i64,
    }
}

/// Where a text starts that is centred in a row of the given height.
pub fn center_in_row(cell: &HeadCell, row_height: u32) -> (at: Point)
    ensures
        at == centered(*cell, row_height as int),
{
    let free_width: i64 = cell.width as i64 - cell.text_width as i64;
    let free_height: i64 = row_height as i64 - cell.line_height as i64;
    Point { x: floor_div(free_width, 2), y: cell.cursor_y as i64 + floor_div(free_height, 2) }
}

/// What every kind of track offers the editor.
pub trait Track {
    /// The display name.
    spec fn spec_name(&self) -> Seq<char>;

    /// The height of the track's row, which is positive.
    spec fn header_height(&self) -> int;

    /// The identifier of the track's row.
    spec fn head_ident(&self) -> Seq<char>;

    /// The display name.
    fn name(&self) -> (name: String)
        ensures
            name@ == self.spec_name(),
    ;

    /// The identifier and the height of the track's row.
    fn head_config(&self) -> (config: (String, u32))
        ensures
            config.0@ == self.head_ident(),
            config.1 == self.header_height(),
            config.1 > 0,
    ;

    /// The track's label, centred in its row.
    fn draw_head(&self, cell: &HeadCell) -> (label: HeadLabel)
        ensures
            label.text@ == self.spec_name(),
            label.at == centered(*cell, self.header_height()),
    ;
}

/// A track of keyframes. It shows its name and nothing else.
#[derive(Debug, PartialEq, Eq)]
pub struct KeyFrameTrack {
    name: String,
}

impl KeyFrameTrack {
    /// Height of a keyframe track's row: 30 pixels.
    pub const TRACK_HEIGHT: u32 = 3000;

    /// A keyframe track with the given display name.
    pub fn new(name: &str) -> (track: KeyFrameTrack)
        ensures
            track.spec_name() == name@,
    {
        KeyFrameTrack { name: String::from_str(name) }
    }
}

impl Track for KeyFrameTrack {
    closed spec fn spec_name(&self) -> Seq<char> {
        self.name@
    }

    fn name(&self) -> (name: String) {
        self.name.clone()
    }

    open spec fn header_height(&self) -> int {
        Self::TRACK_HEIGHT as int
    }

    open spec fn head_ident(&self) -> Seq<char> {
        "keyframe_track_head_"@ + self.spec_name()
    }

    fn head_config(&self) -> (config: (String, u32)) {
        let mut ident: String = String::from_str("keyframe_track_head_");
        ident.append(self.name.as_str());
        (ident, Self::TRACK_HEIGHT)
    }

    fn draw_head(&self, cell: &HeadCell) -> (label: HeadLabel) {
        HeadLabel { at: center_in_row(cell, Self::TRACK_HEIGHT), text: self.name.clone() }
    }
}

/// The kinds of track a timeline can hold.
#[derive(Debug, PartialEq, Eq)]
pub enum TrackKind {
    KeyFrame(KeyFrameTrack),
}

impl Track for TrackKind {
    open spec fn spec_name(&self) -> Seq<char> {
        match *self {
            TrackKind::KeyFrame(track) => track.spec_name(),
        }
    }

    fn name(&self) -> (name: String) {
        match self {
            TrackKind::KeyFrame(track) => track.name(),
        }
    }

    open spec fn header_height(&self) -> int {
        match *self {
            TrackKind::KeyFrame(track) => track.header_height(),
        }
    }

    open spec fn head_ident(&self) -> Seq<char> {
        match *self {
            TrackKind::KeyFrame(track) => track.head_ident(),
        }
    }

    fn head_config(&self) -> (config: (String, u32)) {
        match self {
            TrackKind::KeyFrame(track) => track.head_config(),
        }
    }

    fn draw_head(&self, cell: &HeadCell) -> (label: HeadLabel) {
        match self {
            TrackKind::KeyFrame(track) => track.draw_head(cell),
        }
    }
}

} // verus!
