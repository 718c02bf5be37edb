//! One frame of the widget: what the host measures and sees, and what the
//! toolbar, the editor and the footer show in return.
//!
//! The host lays out three regions, top to bottom, and within the editor a
//! table of two columns: the clock and the tracks' labels on the left, the
//! ruler strip on the right. It hands over what it measured; the functions
//! here take the input and answer with drawing commands and with what the
//! host's own widgets are to show.

use crate::geometry::floor_div;
use crate::geometry::lemma_models_concat;
use crate::geometry::models;
use crate::geometry::white;
use crate::geometry::Color;
use crate::geometry::DrawCommand;
use crate::geometry::DrawModel;
use crate::geometry::Point;
use crate::geometry::Region;
use crate::ruler::draw_playhead;
use crate::ruler::draw_ruler;
use crate::ruler::lemma_playhead_hidden;
use crate::ruler::ruler_commands;
use crate::ruler::MAX_TIME_SCALE;
use crate::ruler::MIN_TIME_SCALE;
use crate::ruler::RULER_HEIGHT;
use crate::timeline::row_models;
use crate::timeline::Timeline;
use crate::timeline::TimelineView;
use crate::timeline::MAX_PLAYBACK_SPEED;
use crate::timeline::MIN_PLAYBACK_SPEED;
use crate::track::center_in_row;
use crate::track::centered;
use crate::track::HeadCell;
use vstd::prelude::*;
use vstd::string::StringExecFns;

verus! {

/// Thickness of the outlines of the toolbar and the footer: one pixel.
pub const BORDER_THICKNESS: u32 = 100;

/// Thickness of the line under the ruler row: one and a half pixels.
pub const SEPARATOR_THICKNESS: u32 = 150;

/// The toolbar's first item starts this far from its left and, in a toolbar
/// exactly one line high, from its top: 2 pixels.
pub const TOOLBAR_INSET: i64 = 200;

/// The editor leaves this much below itself beyond one line of text: 2
/// pixels.
pub const EDITOR_SPACING: i32 = 200;

/// Font size of the clock's text, in hundredths of the normal size.
pub const CLOCK_SCALE: u32 = 125;

/// Width of each of the toolbar's two controls: 50 pixels.
pub const CONTROL_WIDTH: i64 = 5000;

/// The toolbar's two controls show their numbers with two decimals.
pub const CONTROL_DECIMALS: u8 = 2;

/// How far the time scale moves per pixel dragged, in hundredths.
pub const TIME_SCALE_STEP: u32 = 5;

/// How far the playback speed moves per pixel dragged, in hundredths.
pub const PLAYBACK_SPEED_STEP: u32 = 1;

/// The window is never smaller than this, either way: 200 pixels.
pub const MIN_WINDOW_SIZE: i64 = 20_000;

/// The heights the widget asks for, top to bottom, in the host's convention:
/// a positive height is taken as it is, zero stands for all the space that
/// is left, and a negative height for all of it but that much.
#[derive(Clone, Copy, Debug, PartialEq, Eq, Structural)]
pub struct RegionHeights {
    /// The toolbar: one line of text with its spacing.
    pub toolbar: i64,
    /// The editor: what is left above the footer's line and a little more.
    pub editor: i64,
    /// The footer: the rest.
    pub footer: i64,
    /// The ruler strip inside the editor.
    pub ruler: i64,
}

/// A number that is edited by dragging. The number and the bounds of its
/// range are in hundredths.
#[derive(Clone, Copy, Debug, PartialEq, Eq, Structural)]
pub struct DragControl {
    /// What the control shows before it is edited.
    pub value: u32,
    /// The least it can be dragged to.
    pub min: u32,
    /// The most it can be dragged to.
    pub max: u32,
    /// How far it moves per pixel dragged.
    pub step: u32,
    /// How many decimals of the number are shown.
    pub decimals: u8,
    /// How wide the control is.
    pub width: i64,
}

/// What the toolbar shows this frame.
#[derive(Debug, PartialEq, Eq)]
pub struct ToolbarFrame {
    /// The background and the line along the bottom edge.
    pub commands: Vec<DrawCommand>,
    /// Where the first item starts, relative to the toolbar.
    pub cursor: Point,
    /// The control of the time scale.
    pub time_scale: DragControl,
    /// The control of the playback speed.
    pub playback_speed: DragControl,
}

/// What the host measured and saw in the editor this frame.
#[derive(Clone, Copy, Debug, PartialEq, Eq, Structural)]
pub struct EditorInput {
    /// The editor: everything between the toolbar and the footer.
    pub region: Region,
    /// The ruler strip at the top of the editor's right column.
    pub ruler: Region,
    /// The widget or one of its parts has the keyboard focus.
    pub focused: bool,
    /// The space bar went down this frame, not as a key repeat.
    pub space_pressed: bool,
    /// The pointer is over the ruler strip.
    pub ruler_hovered: bool,
    /// The primary button went down this frame.
    pub clicked: bool,
    /// Horizontal position of the pointer on the surface.
    pub mouse_x: i32,
    /// The ruler row's left cell, measured for the clock's text.
    pub clock_cell: HeadCell,
}

/// What the editor shows this frame.
#[derive(Debug, PartialEq, Eq)]
pub struct EditorFrame {
    /// The playhead's time as text, for the ruler row's left cell.
    pub clock: String,
    /// Where in that cell the text starts.
    pub clock_at: Point,
    /// Font size of the text, in hundredths of the normal size.
    pub clock_scale: u32,
    /// The separator under the ruler row, the ruler strip and the playhead.
    pub commands: Vec<DrawCommand>,
    /// Identifier and height of each track's row, top to bottom.
    pub rows: Vec<(String, u32)>,
}

/// What the footer shows this frame.
#[derive(Debug, PartialEq, Eq)]
pub struct FooterFrame {
    /// The line along the top edge.
    pub commands: Vec<DrawCommand>,
    /// The footer's text.
    pub label: String,
}

/// What the host measured and saw in the whole widget this frame.
#[derive(Clone, Copy, Debug, PartialEq, Eq, Structural)]
pub struct FrameInput {
    /// Height of one line of text with its spacing.
    pub line_height: i32,
    pub toolbar: Region,
    pub editor: EditorInput,
    pub footer: Region,
    /// The theme's colour for the background of framed items.
    pub frame_background: Color,
    /// The theme's colour for borders.
    pub border: Color,
}

/// What the widget shows this frame, region by region.
#[derive(Debug, PartialEq, Eq)]
pub struct Frame {
    pub toolbar: ToolbarFrame,
    pub editor: EditorFrame,
    pub footer: FooterFrame,
}

/// The toolbar's background and the line along its bottom edge.
pub open spec fn toolbar_commands(region: Region, frame_background: Color, border: Color) -> Seq<
    DrawModel,
> {
    seq![
        DrawModel::Rect {
            min: region.spec_top_left(),
            max: region.spec_bottom_right(),
            color: frame_background,
            filled: true,
        },
        DrawModel::Line {
            from: Point { x: region.left as i64, y: (region.top + region.height) as i64 },
            to: region.spec_bottom_right(),
            color: border,
            thickness: BORDER_THICKNESS,
        },
    ]
}

/// The line along the footer's top edge.
pub open spec fn footer_commands(region: Region, border: Color) -> Seq<DrawModel> {
    seq![
        DrawModel::Line {
            from: region.spec_top_left(),
            to: Point { x: (region.left + region.width) as i64, y: region.top as i64 },
            color: border,
            thickness: BORDER_THICKNESS,
        },
    ]
}

/// The footer's text.
pub open spec fn footer_label() -> Seq<char> {
    "Footer"@
}

/// The line under the ruler row, across the whole editor.
pub open spec fn separator(region: Region) -> DrawModel {
    DrawModel::Line {
        from: Point { x: region.left as i64, y: (region.top + RULER_HEIGHT) as i64 },
        to: Point {
            x: (region.left + region.width) as i64,
            y: (region.top + RULER_HEIGHT) as i64,
        },
        color: white(),
        thickness: SEPARATOR_THICKNESS,
    }
}

/// The heights the widget asks for where one line of text with its spacing
/// is `line_height` high.
pub open spec fn requested_heights(line_height: int) -> RegionHeights {
    RegionHeights {
        toolbar: line_height as i64,
        editor: (-(line_height + EDITOR_SPACING)) as i64,
        footer: 0,
        ruler: RULER_HEIGHT as i64,
    }
}

/// Where the toolbar's first item starts, relative to the toolbar: inset
/// from the left, and inset below the middle of the space that one line of
/// text leaves free.
pub open spec fn toolbar_origin(region_height: int, line_height: int) -> Point {
    Point { x: TOOLBAR_INSET, y: ((region_height - line_height) / 2 + TOOLBAR_INSET) as i64 }
}

impl TimelineView {
    /// The state after a click on the ruler was looked for: one counts
    /// while the widget has focus and the pointer is over the ruler strip.
    pub open spec fn after_pointer(self, input: EditorInput) -> TimelineView {
        if input.focused && input.ruler_hovered && input.clicked {
            self.clicked(input.mouse_x - input.ruler.left)
        } else {
            self
        }
    }

    /// The state after the editor's input: first the keyboard, then the
    /// pointer.
    pub open spec fn after_editor_input(self, input: EditorInput) -> TimelineView {
        self.after_key(input.focused, input.space_pressed).after_pointer(input)
    }

    /// What the editor draws: the separator, the ruler strip, the playhead.
    pub open spec fn editor_commands(self, input: EditorInput) -> Seq<DrawModel> {
        seq![separator(input.region)] + ruler_commands(
            input.ruler,
            self.time_scale,
            self.left_time,
        ) + self.playhead(input.ruler, input.region.height as int)
    }

    /// The control of the time scale.
    pub open spec fn time_scale_control(self) -> DragControl {
        DragControl {
            value: self.time_scale as u32,
            min: MIN_TIME_SCALE,
            max: MAX_TIME_SCALE,
            step: TIME_SCALE_STEP,
            decimals: CONTROL_DECIMALS,
            width: CONTROL_WIDTH,
        }
    }

    /// The control of the playback speed.
    pub open spec fn playback_speed_control(self) -> DragControl {
        DragControl {
            value: self.playback_speed as u32,
            min: MIN_PLAYBACK_SPEED,
            max: MAX_PLAYBACK_SPEED,
            step: PLAYBACK_SPEED_STEP,
            decimals: CONTROL_DECIMALS,
            width: CONTROL_WIDTH,
        }
    }
}

/// Where the toolbar's first item starts, relative to the toolbar.
pub fn toolbar_cursor(region_height: i32, line_height: i32) -> (at: Point)
    ensures
        at == toolbar_origin(region_height as int, line_height as int),
{
    let free: i64 = region_height as i64 - line_height as i64;
    Point { x: TOOLBAR_INSET, y: floor_div(free, 2) + TOOLBAR_INSET }
}

/// Where the clock's text starts in the ruler row's left cell: centred, as
/// a track's label is in its row.
pub fn clock_cursor(cell: &HeadCell) -> (at: Point)
    ensures
        at == centered(*cell, RULER_HEIGHT as int),
{
    center_in_row(cell, RULER_HEIGHT as u32)
}

/// The line under the ruler row, across the whole editor.
pub fn separator_line(region: &Region) -> (line: DrawCommand)
    ensures
        line@ == separator(*region),
{
    let y: i64 = region.top as i64 + RULER_HEIGHT as i64;
    DrawCommand::Line {
        from: Point { x: region.left as i64, y },
        to: Point { x: region.left as i64 + region.width as i64, y },
        color: Color { r: 255, g: 255, b: 255, a: 255 },
        thickness: SEPARATOR_THICKNESS,
    }
}

/// The heights to give the three regions and the ruler strip.
pub fn region_heights(line_height: i32) -> (heights: RegionHeights)
    ensures
        heights == requested_heights(line_height as int),
{
    RegionHeights {
        toolbar: line_height as i64,
        editor: -(line_height as i64 + EDITOR_SPACING as i64),
        footer: 0,
        ruler: RULER_HEIGHT as i64,
    }
}

impl Timeline {
    /// Looks for a click on the ruler: one counts while the widget has
    /// focus and the pointer is over the ruler strip, and puts the playhead
    /// at the time under the pointer.
    pub fn handle_pointer(&mut self, input: &EditorInput)
        requires
            old(self).wf(),
        ensures
            final(self).wf(),
            final(self)@ == old(self)@.after_pointer(*input),
    {
        if input.focused && input.ruler_hovered && input.clicked {
            self.handle_pointer_at(input.mouse_x, input.ruler.left);
        }
    }

    /// The toolbar: its background, the line along its bottom edge, where
    /// its items start, and its two controls.
    pub fn draw_toolbar(
        &self,
        region: &Region,
        line_height: i32,
        frame_background: Color,
        border: Color,
    ) -> (frame: ToolbarFrame)
        ensures
            models(frame.commands@) == toolbar_commands(*region, frame_background, border),
            frame.cursor == toolbar_origin(region.height as int, line_height as int),
            frame.time_scale == self@.time_scale_control(),
            frame.playback_speed == self@.playback_speed_control(),
    {
        let mut commands: Vec<DrawCommand> = Vec::new();
        commands.push(
            DrawCommand::Rect {
                min: region.top_left(),
                max: region.bottom_right(),
                color: frame_background,
                filled: true,
            },
        );
        commands.push(
            DrawCommand::Line {
                from: Point { x: region.left as i64, y: region.top as i64 + region.height as i64 },
                to: region.bottom_right(),
                color: border,
                thickness: BORDER_THICKNESS,
            },
        );
        assert(models(commands@) =~= toolbar_commands(*region, frame_background, border));
        ToolbarFrame {
            commands,
            cursor: toolbar_cursor(region.height, line_height),
            time_scale: DragControl {
                value: self.time_scale(),
                min: MIN_TIME_SCALE,
                max: MAX_TIME_SCALE,
                step: TIME_SCALE_STEP,
                decimals: CONTROL_DECIMALS,
                width: CONTROL_WIDTH,
            },
            playback_speed: DragControl {
                value: self.playback_speed(),
                min: MIN_PLAYBACK_SPEED,
                max: MAX_PLAYBACK_SPEED,
                step: PLAYBACK_SPEED_STEP,
                decimals: CONTROL_DECIMALS,
                width: CONTROL_WIDTH,
            },
        }
    }

    /// The footer: the line along its top edge, and its text.
    pub fn draw_footer(&self, region: &Region, border: Color) -> (frame: FooterFrame)
        ensures
            models(frame.commands@) == footer_commands(*region, border),
            frame.label@ == footer_label(),
    {
        let mut commands: Vec<DrawCommand> = Vec::new();
        commands.push(
            DrawCommand::Line {
                from: region.top_left(),
                to: Point { x: region.left as i64 + region.width as i64, y: region.top as i64 },
                color: border,
                thickness: BORDER_THICKNESS,
            },
        );
        assert(models(commands@) =~= footer_commands(*region, border));
        FooterFrame { commands, label: String::from_str("Footer") }
    }

    /// The playhead over the given ruler strip, inside an editor of the
    /// given height.
    pub fn draw_track_head(&self, ruler: &Region, outer_height: i32) -> (commands: Vec<
        DrawCommand,
    >)
        requires
            self.wf(),
        ensures
            models(commands@) == self@.playhead(*ruler, outer_height as int),
            commands@.len() == (if self@.time < self@.left_time {
                0int
            } else {
                2int
            }),
    {
        proof {
            self.lemma_wf_view();
        }
        let commands: Vec<DrawCommand> = draw_playhead(
            ruler,
            outer_height,
            self.time(),
            self.left_time(),
            self.time_scale(),
        );
        proof {
            lemma_playhead_hidden(self@.time, self@.left_time, self@.time_scale);
            assert(models(commands@).len() == commands@.len());
        }
        commands
    }

    /// Takes the editor's input, keyboard first and pointer second, and says
    /// what the editor shows. The clock's text is that of the time before
    /// the pointer was looked at; the playhead stands at the time after.
    pub fn draw_editor(&mut self, input: &EditorInput) -> (frame: EditorFrame)
        requires
            old(self).wf(),
        ensures
            final(self).wf(),
            final(self)@ == old(self)@.after_editor_input(*input),
            frame.clock@ == old(self)@.clock(),
            frame.clock_at == centered(input.clock_cell, RULER_HEIGHT as int),
            frame.clock_scale == CLOCK_SCALE,
            models(frame.commands@) == final(self)@.editor_commands(*input),
            row_models(frame.rows@) == final(self)@.rows(),
    {
        self.handle_key_press(input.focused, input.space_pressed);
        let clock: String = self.clock_label();
        let mut commands: Vec<DrawCommand> = Vec::new();
        commands.push(separator_line(&input.region));
        assert(models(commands@) =~= seq![separator(input.region)]);
        self.handle_pointer(input);
        proof {
            self.lemma_wf_view();
        }
        let mut ticks: Vec<DrawCommand> = draw_ruler(
            &input.ruler,
            self.time_scale(),
            self.left_time(),
        );
        let mut playhead: Vec<DrawCommand> = self.draw_track_head(
            &input.ruler,
            input.region.height,
        );
        proof {
            lemma_models_concat(commands@, ticks@);
            lemma_models_concat(commands@ + ticks@, playhead@);
        }
        commands.append(&mut ticks);
        commands.append(&mut playhead);
        let rows: Vec<(String, u32)> = self.track_rows();
        EditorFrame {
            clock,
            clock_at: clock_cursor(&input.clock_cell),
            clock_scale: CLOCK_SCALE,
            commands,
            rows,
        }
    }

    /// One frame: moves the clock on, takes the frame's input, and says what
    /// each region of the widget shows.
    pub fn draw(&mut self, dt_micros: u64, input: &FrameInput) -> (frame: Frame)
        requires
            old(self).wf(),
        ensures
            final(self).wf(),
            final(self)@ == old(self)@.advanced(dt_micros as int).after_editor_input(input.editor),
            models(frame.toolbar.commands@) == toolbar_commands(
                input.toolbar,
                input.frame_background,
                input.border,
            ),
            frame.toolbar.cursor == toolbar_origin(
                input.toolbar.height as int,
                input.line_height as int,
            ),
            frame.toolbar.time_scale == final(self)@.time_scale_control(),
            frame.toolbar.playback_speed == final(self)@.playback_speed_control(),
            frame.editor.clock@ == old(self)@.advanced(dt_micros as int).clock(),
            frame.editor.clock_at == centered(input.editor.clock_cell, RULER_HEIGHT as int),
            frame.editor.clock_scale == CLOCK_SCALE,
            models(frame.editor.commands@) == final(self)@.editor_commands(input.editor),
            row_models(frame.editor.rows@) == final(self)@.rows(),
            models(frame.footer.commands@) == footer_commands(input.footer, input.border),
            frame.footer.label@ == footer_label(),
    {
        self.advance(dt_micros);
        let toolbar: ToolbarFrame = self.draw_toolbar(
            &input.toolbar,
            input.line_height,
            input.frame_background,
            input.border,
        );
        let editor: EditorFrame = self.draw_editor(&input.editor);
        let footer: FooterFrame = self.draw_footer(&input.footer, input.border);
        Frame { toolbar, editor, footer }
    }
}

} // verus!
