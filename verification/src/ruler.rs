//! The time ruler: where its ticks and labels go, where the playhead stands,
//! and which time a click on it means.
//!
//! One second of timeline time is [`second_width`] wide. Major ticks stand
//! one second apart starting at the ruler's left edge, with nine minor ticks
//! between neighbours and a label beside each major tick.

use crate::geometry::Color;
use crate::geometry::DrawCommand;
use crate::geometry::DrawModel;
use crate::geometry::floor_div;
use crate::geometry::grey;
use crate::geometry::lemma_models_push;
use crate::geometry::models;
use crate::geometry::Point;
use crate::geometry::red;
use crate::geometry::Region;
use crate::geometry::white;
use crate::time::clock_text;
use crate::time::lemma_shifted_twice;
use crate::time::NANOS_PER_MILLI;
use crate::time::quotient_toward_zero;
use crate::time::shifted;
use crate::time::TimeOfDay;
use vstd::arithmetic::div_mod::lemma_fundamental_div_mod_converse;
use vstd::prelude::*;

verus! {

/// Width of one second for each hundredth of time scale: 250 pixels per
/// second at a scale of one.
pub const SECOND_WIDTH_PER_STEP: i64 = 250;

/// The smallest time scale, in hundredths.
pub const MIN_TIME_SCALE: u32 = 1;

/// The largest time scale, in hundredths.
pub const MAX_TIME_SCALE: u32 = 1000;

/// Height of the ruler row: 35 pixels.
pub const RULER_HEIGHT: i32 = 3500;

/// A second is divided into this many steps by its minor ticks.
pub const MINOR_STEPS: i64 = 10;

/// Thickness of a tick: one pixel.
pub const TICK_THICKNESS: u32 = 100;

/// A label starts this far right of its tick: 5 pixels.
pub const LABEL_INSET: i64 = 500;

/// Font size of the labels, in hundredths of the normal size.
pub const LABEL_SCALE: u32 = 90;

/// Half the width of the playhead's marker: 5 pixels.
pub const MARKER_HALF_WIDTH: i64 = 500;

/// Thickness of the playhead's outline and line: 2 pixels.
pub const PLAYHEAD_THICKNESS: u32 = 200;

/// A time scale the controls can produce.
pub open spec fn valid_scale(scale: int) -> bool {
    MIN_TIME_SCALE <= scale <= MAX_TIME_SCALE
}

/// Width of one second at the given time scale.
pub open spec fn second_width(scale: int) -> int {
    SECOND_WIDTH_PER_STEP * scale
}

/// How many major ticks a ruler of the given width shows: one at each whole
/// multiple of the second width from zero up to the width itself.
pub open spec fn major_tick_count(width: int, scale: int) -> int {
    if width < 0 {
        0
    } else {
        width / second_width(scale) + 1
    }
}

/// Horizontal position of major tick `k`.
pub open spec fn major_tick_x(ruler: Region, scale: int, k: int) -> int {
    ruler.left + k * second_width(scale)
}

/// Horizontal position of minor tick `j` after major tick `k`.
pub open spec fn minor_tick_x(ruler: Region, scale: int, k: int, j: int) -> int {
    major_tick_x(ruler, scale, k) + second_width(scale) / (MINOR_STEPS as int) * j
}

/// The time that major tick `k` is labelled with, in nanoseconds since
/// midnight: `k` seconds after the left edge's.
pub open spec fn tick_time(left: int, k: int) -> int {
    shifted(left, k * 1000)
}

/// The line of major tick `k`: from the bottom edge up to a third of the
/// height.
pub open spec fn major_tick(ruler: Region, scale: int, k: int) -> DrawModel {
    let x = major_tick_x(ruler, scale, k);
    DrawModel::Line {
        from: ruler.spec_at_height(x, 1000),
        to: ruler.spec_at_height(x, 333),
        color: white(),
        thickness: TICK_THICKNESS,
    }
}

/// The line of minor tick `j` after major tick `k`: from the bottom edge up
/// to two thirds of the height.
pub open spec fn minor_tick(ruler: Region, scale: int, k: int, j: int) -> DrawModel {
    let x = minor_tick_x(ruler, scale, k, j);
    DrawModel::Line {
        from: ruler.spec_at_height(x, 1000),
        to: ruler.spec_at_height(x, 666),
        color: grey(),
        thickness: TICK_THICKNESS,
    }
}

/// The label of major tick `k`.
pub open spec fn tick_label(ruler: Region, scale: int, left: int, k: int) -> DrawModel {
    DrawModel::Text {
        at: ruler.spec_at_height(major_tick_x(ruler, scale, k) + LABEL_INSET, 100),
        color: white(),
        scale: LABEL_SCALE,
        text: clock_text(tick_time(left, k)),
    }
}

/// Everything drawn for major tick `k`: its line, the nine minor ticks that
/// follow it, and its label.
pub open spec fn tick_commands(ruler: Region, scale: int, left: int, k: int) -> Seq<DrawModel> {
    seq![major_tick(ruler, scale, k)] + Seq::new(
        (MINOR_STEPS - 1) as nat,
        |j: int| minor_tick(ruler, scale, k, j + 1),
    ) + seq![tick_label(ruler, scale, left, k)]
}

/// The commands of the first `n` major ticks, left to right.
pub open spec fn ticks(ruler: Region, scale: int, left: int, n: int) -> Seq<DrawModel>
    decreases n,
{
    if n <= 0 {
        Seq::empty()
    } else {
        ticks(ruler, scale, left, n - 1) + tick_commands(ruler, scale, left, n - 1)
    }
}

/// The ruler strip: all its ticks and labels, clipped to the strip.
pub open spec fn ruler_commands(ruler: Region, scale: int, left: int) -> Seq<DrawModel> {
    seq![DrawModel::ClipBegin { min: ruler.spec_top_left(), max: ruler.spec_bottom_right() }]
        + ticks(ruler, scale, left, major_tick_count(ruler.width as int, scale))
        + seq![DrawModel::ClipEnd]
}

/// How far right of the ruler's left edge the playhead stands, rounded down:
/// the whole milliseconds from the left edge's time to the playhead's, at
/// the second width per thousand of them.
pub open spec fn playhead_offset(time: int, left: int, scale: int) -> int {
    quotient_toward_zero(time - left, NANOS_PER_MILLI as int) * second_width(scale) / 1000
}

/// The playhead: a filled marker at the bottom of the ruler strip and a line
/// down through the track rows, or nothing where it would stand left of the
/// ruler's left edge.
pub open spec fn playhead_commands(
    ruler: Region,
    outer_height: int,
    time: int,
    left: int,
    scale: int,
) -> Seq<DrawModel> {
    let offset = playhead_offset(time, left, scale);
    let x = ruler.left + offset;
    if offset >= 0 {
        seq![
            DrawModel::Polyline {
                points: seq![
                    ruler.spec_at_height(x, 1000),
                    ruler.spec_at_height(x - MARKER_HALF_WIDTH, 800),
                    ruler.spec_at_height(x - MARKER_HALF_WIDTH, 600),
                    ruler.spec_at_height(x + MARKER_HALF_WIDTH, 600),
                    ruler.spec_at_height(x + MARKER_HALF_WIDTH, 800),
                ],
                color: red(),
                filled: true,
                thickness: PLAYHEAD_THICKNESS,
            },
            DrawModel::Line {
                from: ruler.spec_at_height(x, 700),
                to: Point { x: x as i64, y: (ruler.top + outer_height) as i64 },
                color: red(),
                thickness: PLAYHEAD_THICKNESS,
            },
        ]
    } else {
        Seq::empty()
    }
}

/// The milliseconds after the left edge's time that a click `local_x` right
/// of the ruler's left edge means, rounded toward zero.
pub open spec fn click_millis(local_x: int, scale: int) -> int {
    quotient_toward_zero(local_x * 1000, second_width(scale))
}

/// Neighbouring major ticks stand one second width apart, and their labels
/// one second.
pub proof fn lemma_major_ticks_periodic(ruler: Region, scale: int, left: int, k: int)
    ensures
        major_tick_x(ruler, scale, k + 1) - major_tick_x(ruler, scale, k) == second_width(scale),
        tick_time(left, k + 1) == shifted(tick_time(left, k), 1000),
{
    assert((k + 1) * second_width(scale) == k * second_width(scale) + second_width(scale))
        by (nonlinear_arith);
    lemma_shifted_twice(left, k * 1000, 1000);
}

/// The first `n` major ticks take eleven commands each.
pub proof fn lemma_ticks_len(ruler: Region, scale: int, left: int, n: int)
    requires
        0 <= n,
    ensures
        ticks(ruler, scale, left, n).len() == 11 * n,
    decreases n,
{
    if n > 0 {
        lemma_ticks_len(ruler, scale, left, n - 1);
    }
}

/// Among the commands of the first `n` major ticks, those of tick `k` stand
/// together, after those of the ticks left of it: first its line, then its
/// nine minor ticks left to right, then its label.
pub proof fn lemma_tick_at(ruler: Region, scale: int, left: int, n: int, k: int, j: int)
    requires
        0 <= k < n,
        0 <= j < 11,
    ensures
        ticks(ruler, scale, left, n)[11 * k + j] == (if j == 0 {
            major_tick(ruler, scale, k)
        } else if j < 10 {
            minor_tick(ruler, scale, k, j)
        } else {
            tick_label(ruler, scale, left, k)
        }),
    decreases n,
{
    lemma_ticks_len(ruler, scale, left, n - 1);
    if k < n - 1 {
        lemma_tick_at(ruler, scale, left, n - 1, k, j);
    }
}

/// The playhead never moves left as its time grows, the left edge's time and
/// the time scale staying as they are.
pub proof fn lemma_playhead_monotonic(earlier: int, later: int, left: int, scale: int)
    requires
        earlier <= later,
        valid_scale(scale),
    ensures
        playhead_offset(earlier, left, scale) <= playhead_offset(later, left, scale),
{
    let unit = NANOS_PER_MILLI as int;
    let a = quotient_toward_zero(earlier - left, unit);
    let b = quotient_toward_zero(later - left, unit);
    assert(a <= b) by {
        if earlier - left >= 0 {
            vstd::arithmetic::div_mod::lemma_div_is_ordered(earlier - left, later - left, unit);
        } else if later - left >= 0 {
            vstd::arithmetic::div_mod::lemma_div_pos_is_pos(left - earlier, unit);
            vstd::arithmetic::div_mod::lemma_div_pos_is_pos(later - left, unit);
        } else {
            vstd::arithmetic::div_mod::lemma_div_is_ordered(left - later, left - earlier, unit);
        }
    }
    let w = second_width(scale);
    assert(a * w <= b * w) by (nonlinear_arith)
        requires
            a <= b,
            w > 0,
    ;
    vstd::arithmetic::div_mod::lemma_div_is_ordered(a * w, b * w, 1000);
}

/// Between whole-millisecond times, the playhead stands left of the ruler's
/// left edge, and so is not drawn, exactly when its time is before the left
/// edge's.
pub proof fn lemma_playhead_hidden(time: int, left: int, scale: int)
    requires
        time % (NANOS_PER_MILLI as int) == 0,
        left % (NANOS_PER_MILLI as int) == 0,
        valid_scale(scale),
    ensures
        playhead_offset(time, left, scale) < 0 <==> time < left,
{
    let unit = NANOS_PER_MILLI as int;
    let q = quotient_toward_zero(time - left, unit);
    let w = second_width(scale);
    vstd::arithmetic::div_mod::lemma_fundamental_div_mod(time, unit);
    vstd::arithmetic::div_mod::lemma_fundamental_div_mod(left, unit);
    if time >= left {
        vstd::arithmetic::div_mod::lemma_div_pos_is_pos(time - left, unit);
        assert(q * w >= 0) by (nonlinear_arith)
            requires
                q >= 0,
                w > 0,
        ;
        vstd::arithmetic::div_mod::lemma_div_pos_is_pos(q * w, 1000);
    } else {
        let millis = left / unit - time / unit;
        assert(left - time == unit * millis + 0) by (nonlinear_arith)
            requires
                time == unit * (time / unit),
                left == unit * (left / unit),
                millis == left / unit - time / unit,
        ;
        vstd::arithmetic::div_mod::lemma_fundamental_div_mod_converse(left - time, unit, millis, 0);
        assert(millis >= 1);
        assert(q * w < 0) by (nonlinear_arith)
            requires
                q == -millis,
                millis >= 1,
                w > 0,
        ;
        vstd::arithmetic::div_mod::lemma_div_is_ordered(q * w, -1, 1000);
    }
}

/// A click on the ruler's left edge means the left edge's time, and a click
/// one second width right of it means one second later.
pub proof fn lemma_click_millis_at_ticks(scale: int)
    requires
        valid_scale(scale),
    ensures
        click_millis(0, scale) == 0,
        click_millis(second_width(scale), scale) == 1000,
{
    let w = second_width(scale);
    vstd::arithmetic::div_mod::lemma_div_basics(w);
    vstd::arithmetic::div_mod::lemma_div_multiples_vanish(1000, w);
    assert(w * 1000 == 1000 * w) by (nonlinear_arith);
}

/// Width of one second at the given time scale.
pub fn second_width_of(scale: u32) -> (width: i64)
    requires
        valid_scale(scale as int),
    ensures
        width == second_width(scale as int),
        SECOND_WIDTH_PER_STEP <= width <= SECOND_WIDTH_PER_STEP * MAX_TIME_SCALE,
{
    SECOND_WIDTH_PER_STEP * (scale as i64)
}

/// Appends what is drawn for major tick `k`.
fn push_tick(commands: &mut Vec<DrawCommand>, ruler: &Region, scale: u32, left: TimeOfDay, k: i64)
    requires
        valid_scale(scale as int),
        left.wf(),
        0 <= k,
        k * second_width(scale as int) <= ruler.width,
    ensures
        models(final(commands)@) == models(old(commands)@) + tick_commands(
            *ruler,
            scale as int,
            left@,
            k as int,
        ),
{
    let width: i64 = second_width_of(scale);
    assert(0 <= k * width <= 0x7fff_ffff && k <= 0x7fff_ffff) by (nonlinear_arith)
        requires
            0 <= k,
            k * width <= 0x7fff_ffff,
            width >= 250,
    ;
    let x: i64 = ruler.left as i64 + k * width;
    let ghost before = models(commands@);
    let ghost minors = Seq::new(
        (MINOR_STEPS - 1) as nat,
        |j: int| minor_tick(*ruler, scale as int, k as int, j + 1),
    );
    commands.push(
        DrawCommand::Line {
            from: ruler.at_height(x, 1000),
            to: ruler.at_height(x, 333),
            color: Color { r: 255, g: 255, b: 255, a: 255 },
            thickness: TICK_THICKNESS,
        },
    );
    proof {
        lemma_models_push(old(commands)@, commands@.last());
        assert(commands@ == old(commands)@.push(commands@.last()));
        assert(models(commands@) == before + seq![major_tick(*ruler, scale as int, k as int)]
            + minors.take(0));
    }
    let step: i64 = width / MINOR_STEPS;
    let mut j: i64 = 1;
    while j < MINOR_STEPS
        invariant
            1 <= j <= MINOR_STEPS,
            valid_scale(scale as int),
            width == second_width(scale as int),
            step == width / MINOR_STEPS,
            0 <= step <= 25_000,
            x == major_tick_x(*ruler, scale as int, k as int),
            -0x8000_0000 <= x <= 0x1_0000_0000,
            minors == Seq::new(
                (MINOR_STEPS - 1) as nat,
                |j: int| minor_tick(*ruler, scale as int, k as int, j + 1),
            ),
            models(commands@) == before + seq![major_tick(*ruler, scale as int, k as int)]
                + minors.take(j - 1),
        decreases MINOR_STEPS - j,
    {
        let ghost earlier = commands@;
        assert(0 <= step * j <= 250_000) by (nonlinear_arith)
            requires
                0 <= step <= 25_000,
                1 <= j < 10,
        ;
        let minor_x: i64 = x + step * j;
        commands.push(
            DrawCommand::Line {
                from: ruler.at_height(minor_x, 1000),
                to: ruler.at_height(minor_x, 666),
                color: Color { r: 128, g: 128, b: 128, a: 255 },
                thickness: TICK_THICKNESS,
            },
        );
        proof {
            lemma_models_push(earlier, commands@.last());
            assert(commands@ == earlier.push(commands@.last()));
            assert(commands@.last()@ == minors[j - 1]);
            assert(minors.take(j as int) == minors.take(j - 1).push(minors[j - 1]));
        }
        j += 1;
    }
    let ghost earlier = commands@;
    let text: String = left.wrapping_add_millis(k * 1000).format_seconds();
    commands.push(
        DrawCommand::Text {
            at: ruler.at_height(x + LABEL_INSET, 100),
            color: Color { r: 255, g: 255, b: 255, a: 255 },
            scale: LABEL_SCALE,
            text,
        },
    );
    proof {
        lemma_models_push(earlier, commands@.last());
        assert(commands@ == earlier.push(commands@.last()));
        assert(minors.take(MINOR_STEPS - 1) == minors);
        assert(commands@.last()@ == tick_label(*ruler, scale as int, left@, k as int));
        assert(models(commands@) == before + tick_commands(
            *ruler,
            scale as int,
            left@,
            k as int,
        ));
    }
}

/// Drawing one more tick extends the ticks drawn so far by that tick's
/// commands, whatever was drawn before them.
proof fn lemma_ticks_extend(
    before: Seq<DrawModel>,
    ruler: Region,
    scale: int,
    left: int,
    k: int,
)
    requires
        0 <= k,
    ensures
        (before + ticks(ruler, scale, left, k)) + tick_commands(ruler, scale, left, k) == before
            + ticks(ruler, scale, left, k + 1),
{
    let drawn = ticks(ruler, scale, left, k);
    let next = tick_commands(ruler, scale, left, k);
    assert(ticks(ruler, scale, left, k + 1) == drawn + next);
    assert((before + drawn) + next =~= before + (drawn + next));
}

/// The loop over major ticks stops after exactly [`major_tick_count`] of
/// them.
proof fn lemma_tick_count_reached(width: int, scale: int, k: int)
    requires
        valid_scale(scale),
        0 <= k,
        k == 0 || (k - 1) * second_width(scale) <= width,
        k * second_width(scale) > width,
    ensures
        k == major_tick_count(width, scale),
{
    let w = second_width(scale);
    if width >= 0 {
        assert(k >= 1) by (nonlinear_arith)
            requires
                k >= 0,
                k * w > width,
                width >= 0,
        ;
        assert(k * w == (k - 1) * w + w) by (nonlinear_arith);
        lemma_fundamental_div_mod_converse(width, w, k - 1, width - (k - 1) * w);
    } else {
        assert(k == 0) by (nonlinear_arith)
            requires
                k == 0 || (k - 1) * w <= width,
                k >= 0,
                w > 0,
                width < 0,
        ;
    }
}

/// The ruler strip's ticks and labels, clipped to the strip.
pub fn draw_ruler(ruler: &Region, scale: u32, left: TimeOfDay) -> (commands: Vec<DrawCommand>)
    requires
        valid_scale(scale as int),
        left.wf(),
    ensures
        models(commands@) == ruler_commands(*ruler, scale as int, left@),
        commands@.len() == 2 + 11 * major_tick_count(ruler.width as int, scale as int),
{
    let width: i64 = second_width_of(scale);
    let mut commands: Vec<DrawCommand> = Vec::new();
    commands.push(DrawCommand::ClipBegin { min: ruler.top_left(), max: ruler.bottom_right() });
    let ghost clip = seq![
        DrawModel::ClipBegin { min: ruler.spec_top_left(), max: ruler.spec_bottom_right() },
    ];
    assert(models(commands@) =~= clip + ticks(*ruler, scale as int, left@, 0));
    let mut k: i64 = 0;
    let mut offset: i64 = 0;
    assert(0 == 0 * second_width(scale as int));
    while offset <= ruler.width as i64
        invariant
            valid_scale(scale as int),
            left.wf(),
            width == second_width(scale as int),
            0 <= k <= offset,
            width >= SECOND_WIDTH_PER_STEP,
            offset == k * second_width(scale as int),
            k == 0 || (k - 1) * second_width(scale as int) <= ruler.width,
            models(commands@) == clip + ticks(*ruler, scale as int, left@, k as int),
        decreases ruler.width - offset + width,
    {
        push_tick(&mut commands, ruler, scale, left, k);
        proof {
            lemma_ticks_extend(clip, *ruler, scale as int, left@, k as int);
            assert((k + 1) * second_width(scale as int) == offset + width) by (nonlinear_arith)
                requires
                    offset == k * second_width(scale as int),
                    width == second_width(scale as int),
            ;
        }
        k += 1;
        offset += width;
    }
    proof {
        lemma_tick_count_reached(ruler.width as int, scale as int, k as int);
    }
    let ghost earlier = commands@;
    commands.push(DrawCommand::ClipEnd);
    proof {
        lemma_models_push(earlier, commands@.last());
        assert(commands@ == earlier.push(commands@.last()));
        lemma_ticks_len(*ruler, scale as int, left@, k as int);
        assert(models(commands@).len() == commands@.len());
    }
    commands
}

/// The playhead for the given playhead time and left-edge time.
/// `outer_height` is the height of the editor that the ruler sits in: the
/// playhead's line ends that far below the ruler's top.
pub fn draw_playhead(
    ruler: &Region,
    outer_height: i32,
    time: TimeOfDay,
    left: TimeOfDay,
    scale: u32,
) -> (commands: Vec<DrawCommand>)
    requires
        valid_scale(scale as int),
        time.wf(),
        left.wf(),
    ensures
        models(commands@) == playhead_commands(
            *ruler,
            outer_height as int,
            time@,
            left@,
            scale as int,
        ),
{
    let width: i64 = second_width_of(scale);
    let millis: i64 = time.millis_since(left);
    assert(-86_400_000 * 250_000 <= millis * width <= 86_400_000 * 250_000) by (nonlinear_arith)
        requires
            -86_400_000 < millis < 86_400_000,
            250 <= width <= 250_000,
    ;
    let offset: i64 = floor_div(millis * width, 1000);
    let x: i64 = ruler.left as i64 + offset;
    let mut commands: Vec<DrawCommand> = Vec::new();
    let ghost expected = playhead_commands(
        *ruler,
        outer_height as int,
        time@,
        left@,
        scale as int,
    );
    assert(offset == playhead_offset(time@, left@, scale as int));
    if x >= ruler.left as i64 {
        let mut points: Vec<Point> = Vec::new();
        points.push(ruler.at_height(x, 1000));
        points.push(ruler.at_height(x - MARKER_HALF_WIDTH, 800));
        points.push(ruler.at_height(x - MARKER_HALF_WIDTH, 600));
        points.push(ruler.at_height(x + MARKER_HALF_WIDTH, 600));
        points.push(ruler.at_height(x + MARKER_HALF_WIDTH, 800));
        assert(points@ =~= expected[0]->Polyline_points);
        commands.push(
            DrawCommand::Polyline {
                points,
                color: Color { r: 255, g: 0, b: 0, a: 255 },
                filled: true,
                thickness: PLAYHEAD_THICKNESS,
            },
        );
        commands.push(
            DrawCommand::Line {
                from: ruler.at_height(x, 700),
                to: Point { x, y: ruler.top as i64 + outer_height as i64 },
                color: Color { r: 255, g: 0, b: 0, a: 255 },
                thickness: PLAYHEAD_THICKNESS,
            },
        );
        assert(commands@[0]@ == expected[0]);
        assert(commands@[1]@ == expected[1]);
    }
    assert(models(commands@) =~= expected);
    commands
}

/// The milliseconds after the left edge's time that a click means, given
/// where the pointer is and where the ruler's left edge is.
pub fn pointer_millis(mouse_x: i32, ruler_left: i32, scale: u32) -> (millis: i64)
    requires
        valid_scale(scale as int),
    ensures
        millis == click_millis(mouse_x - ruler_left, scale as int),
        -0x1_0000_0000 * 4 <= millis <= 0x1_0000_0000 * 4,
{
    let width: i64 = second_width_of(scale);
    let local_x: i64 = mouse_x as i64 - ruler_left as i64;
    let millis: i64 = local_x * 1000 / width;
    proof {
        let a = local_x * 1000;
        if a >= 0 {
            vstd::arithmetic::div_mod::lemma_div_is_ordered_by_denominator(a, 250, width as int);
            vstd::arithmetic::div_mod::lemma_div_pos_is_pos(a, width as int);
        } else {
            vstd::arithmetic::div_mod::lemma_div_is_ordered_by_denominator(-a, 250, width as int);
            vstd::arithmetic::div_mod::lemma_div_pos_is_pos(-a, width as int);
        }
    }
    millis
}

} // verus!
