//! Points, measured regions, colours and the drawing commands a frame is
//! made of.
//!
//! What the host measures comes in as 32-bit numbers; everything computed
//! from it is 64 bits wide, so no sum or product here can overflow.

use vstd::prelude::*;

verus! {

/// Lengths and coordinates count hundredths of a pixel.
pub const UNITS_PER_PIXEL: i64 = 100;

/// A position on the drawing surface.
#[derive(Clone, Copy, Debug, PartialEq, Eq, Structural)]
pub struct Point {
    pub x: i64,
    pub y: i64,
}

/// A rectangle as the host measures it: where its top-left corner is on the
/// surface, and how far its content extends from there.
#[derive(Clone, Copy, Debug, PartialEq, Eq, Structural)]
pub struct Region {
    pub left: i32,
    pub top: i32,
    pub width: i32,
    pub height: i32,
}

/// Red, green, blue and opacity, each from 0 to 255.
#[derive(Clone, Copy, Debug, PartialEq, Eq, Structural)]
pub struct Color {
    pub r: u8,
    pub g: u8,
    pub b: u8,
    pub a: u8,
}

/// One primitive for the host's drawing surface.
#[derive(Debug, PartialEq, Eq)]
pub enum DrawCommand {
    /// An axis-aligned rectangle, filled or outlined.
    Rect { min: Point, max: Point, color: Color, filled: bool },
    /// A line segment; `thickness` in hundredths of a pixel.
    Line { from: Point, to: Point, color: Color, thickness: u32 },
    /// A path through `points`, closed and filled where `filled` is set.
    Polyline { points: Vec<Point>, color: Color, filled: bool, thickness: u32 },
    /// Text whose top-left corner is `at`; `scale` is the font size in
    /// hundredths of the host's normal size.
    Text { at: Point, color: Color, scale: u32, text: String },
    /// Everything up to the matching `ClipEnd` is clipped to the rectangle.
    ClipBegin { min: Point, max: Point },
    /// Ends the innermost clipping scope.
    ClipEnd,
}

/// What a [`DrawCommand`] says, with its text and points as sequences.
pub enum DrawModel {
    Rect { min: Point, max: Point, color: Color, filled: bool },
    Line { from: Point, to: Point, color: Color, thickness: u32 },
    Polyline { points: Seq<Point>, color: Color, filled: bool, thickness: u32 },
    Text { at: Point, color: Color, scale: u32, text: Seq<char> },
    ClipBegin { min: Point, max: Point },
    ClipEnd,
}

impl View for DrawCommand {
    type V = DrawModel;

    open spec fn view(&self) -> DrawModel {
        match *self {
            DrawCommand::Rect { min, max, color, filled } => DrawModel::Rect {
                min,
                max,
                color,
                filled,
            },
            DrawCommand::Line { from, to, color, thickness } => DrawModel::Line {
                from,
                to,
                color,
                thickness,
            },
            DrawCommand::Polyline { points, color, filled, thickness } => DrawModel::Polyline {
                points: points@,
                color,
                filled,
                thickness,
            },
            DrawCommand::Text { at, color, scale, text } => DrawModel::Text {
                at,
                color,
                scale,
                text: text@,
            },
            DrawCommand::ClipBegin { min, max } => DrawModel::ClipBegin { min, max },
            DrawCommand::ClipEnd => DrawModel::ClipEnd,
        }
    }
}

/// The models of a list of commands, in order.
pub open spec fn models(commands: Seq<DrawCommand>) -> Seq<DrawModel> {
    Seq::new(commands.len(), |i: int| commands[i]@)
}

/// Appending a command appends its model.
pub proof fn lemma_models_push(commands: Seq<DrawCommand>, command: DrawCommand)
    ensures
        models(commands.push(command)) == models(commands).push(command@),
{
    assert(models(commands.push(command)) =~= models(commands).push(command@));
}

/// The models of two lists of commands, one after the other.
pub proof fn lemma_models_concat(first: Seq<DrawCommand>, second: Seq<DrawCommand>)
    ensures
        models(first + second) == models(first) + models(second),
{
    assert(models(first + second) =~= models(first) + models(second));
}

/// Opaque white.
pub open spec fn white() -> Color {
    Color { r: 255, g: 255, b: 255, a: 255 }
}

/// Opaque mid grey.
pub open spec fn grey() -> Color {
    Color { r: 128, g: 128, b: 128, a: 255 }
}

/// Opaque red.
pub open spec fn red() -> Color {
    Color { r: 255, g: 0, b: 0, a: 255 }
}

impl Region {
    /// The top-left corner.
    pub open spec fn spec_top_left(self) -> Point {
        Point { x: self.left as i64, y: self.top as i64 }
    }

    /// The corner opposite the top-left one.
    pub open spec fn spec_bottom_right(self) -> Point {
        Point { x: (self.left + self.width) as i64, y: (self.top + self.height) as i64 }
    }

    /// The point at horizontal position `x` that lies `thousandths` of the
    /// height below the top edge, rounded down.
    pub open spec fn spec_at_height(self, x: int, thousandths: int) -> Point {
        Point { x: x as i64, y: (self.top + self.height * thousandths / 1000) as i64 }
    }

    pub fn top_left(&self) -> (p: Point)
        ensures
            p == self.spec_top_left(),
    {
        Point { x: self.left as i64, y: self.top as i64 }
    }

    pub fn bottom_right(&self) -> (p: Point)
        ensures
            p == self.spec_bottom_right(),
    {
        Point { x: self.left as i64 + self.width as i64, y: self.top as i64 + self.height as i64 }
    }

    pub fn at_height(&self, x: i64, thousandths: u16) -> (p: Point)
        ensures
            p == self.spec_at_height(x as int, thousandths as int),
    {
        let height: i64 = self.height as i64;
        let share: i64 = thousandths as i64;
        assert(-0x8000_0000 * 0xffff <= height * share <= 0x8000_0000 * 0xffff)
            by (nonlinear_arith)
            requires
                -0x8000_0000 <= height < 0x8000_0000,
                0 <= share <= 0xffff,
        ;
        Point { x, y: self.top as i64 + floor_div(height * share, 1000) }
    }
}

/// `a / b` rounded down, which for a negative `a` is not what `/` computes
/// on machine integers.
pub fn floor_div(a: i64, b: i64) -> (q: i64)
    requires
        b > 0,
    ensures
        q == a / b,
{
    let q: i64 = a / b;
    let r: i64 = a % b;
    proof {
        vstd::arithmetic::div_mod::lemma_fundamental_div_mod(a as int, b as int);
        if a >= 0 {
        } else {
            vstd::arithmetic::div_mod::lemma_fundamental_div_mod(-a as int, b as int);
            lemma_floor_of_negative(a as int, b as int);
            let floor = a as int / b as int;
            let rest = a as int % b as int;
            assert(floor >= a) by (nonlinear_arith)
                requires
                    a == b * floor + rest,
                    0 <= rest < b,
                    a < 0,
            ;
        }
    }
    if r < 0 {
        q - 1
    } else {
        q
    }
}

/// How rounding down and rounding toward zero differ below zero.
proof fn lemma_floor_of_negative(a: int, b: int)
    requires
        a < 0,
        b > 0,
    ensures
        (-a) % b == 0 ==> a / b == -((-a) / b),
        (-a) % b != 0 ==> a / b == -((-a) / b) - 1,
{
    let q = (-a) / b;
    let r = (-a) % b;
    vstd::arithmetic::div_mod::lemma_fundamental_div_mod(-a, b);
    vstd::arithmetic::div_mod::lemma_mod_bound(-a, b);
    if r == 0 {
        assert(a == b * (-q) + 0) by (nonlinear_arith)
            requires
                -a == b * q + r,
                r == 0,
        ;
        vstd::arithmetic::div_mod::lemma_fundamental_div_mod_converse(a, b, -q, 0);
    } else {
        assert(a == b * (-q - 1) + (b - r)) by (nonlinear_arith)
            requires
                -a == b * q + r,
        ;
        vstd::arithmetic::div_mod::lemma_fundamental_div_mod_converse(a, b, -q - 1, b - r);
    }
}

} // verus!
