use imgui_timeline::geometry::{Color, DrawCommand, Point, Region};
use imgui_timeline::ruler::{draw_playhead, draw_ruler, pointer_millis, second_width_of};
use imgui_timeline::time::TimeOfDay;

const WHITE: Color = Color { r: 255, g: 255, b: 255, a: 255 };
const GREY: Color = Color { r: 128, g: 128, b: 128, a: 255 };
const RED: Color = Color { r: 255, g: 0, b: 0, a: 255 };

fn at(hour: u32, minute: u32, second: u32, milli: u32) -> TimeOfDay {
    TimeOfDay::from_parts(hour * 3600 + minute * 60 + second, milli * 1_000_000).unwrap()
}

fn strip() -> Region {
    Region { left: 1000, top: 500, width: 20_000, height: 3500 }
}

fn major_xs(commands: &[DrawCommand]) -> Vec<i64> {
    let mut xs = Vec::new();
    for command in commands {
        if let DrawCommand::Line { from, color, .. } = command {
            if *color == WHITE {
                xs.push(from.x);
            }
        }
    }
    xs
}

fn labels(commands: &[DrawCommand]) -> Vec<String> {
    let mut texts = Vec::new();
    for command in commands {
        if let DrawCommand::Text { text, .. } = command {
            texts.push(text.clone());
        }
    }
    texts
}

#[test]
fn second_width_is_a_hundred_pixels_at_the_default_scale() {
    assert_eq!(second_width_of(40), 10_000);
}

#[test]
fn second_width_grows_with_the_scale() {
    assert_eq!(second_width_of(1), 250);
    assert_eq!(second_width_of(100), 25_000);
    assert_eq!(second_width_of(1000), 250_000);
}

#[test]
fn ruler_is_clipped_to_its_strip() {
    let commands = draw_ruler(&strip(), 40, at(0, 0, 2, 0));
    assert_eq!(
        commands[0],
        DrawCommand::ClipBegin {
            min: Point { x: 1000, y: 500 },
            max: Point { x: 21_000, y: 4000 }
        }
    );
    assert_eq!(commands[commands.len() - 1], DrawCommand::ClipEnd);
}

#[test]
fn ruler_draws_eleven_commands_per_major_tick() {
    let commands = draw_ruler(&strip(), 40, at(0, 0, 2, 0));
    assert_eq!(commands.len(), 2 + 3 * 11);
}

#[test]
fn ruler_first_tick_is_drawn_in_full() {
    let commands = draw_ruler(&strip(), 40, at(0, 0, 2, 0));
    assert_eq!(
        commands[1],
        DrawCommand::Line {
            from: Point { x: 1000, y: 4000 },
            to: Point { x: 1000, y: 1665 },
            color: WHITE,
            thickness: 100
        }
    );
    for j in 1..10usize {
        assert_eq!(
            commands[1 + j],
            DrawCommand::Line {
                from: Point { x: 1000 + 1000 * j as i64, y: 4000 },
                to: Point { x: 1000 + 1000 * j as i64, y: 2831 },
                color: GREY,
                thickness: 100
            }
        );
    }
    assert_eq!(
        commands[11],
        DrawCommand::Text {
            at: Point { x: 1500, y: 850 },
            color: WHITE,
            scale: 90,
            text: String::from("00:00:02")
        }
    );
}

#[test]
fn major_ticks_stand_one_second_width_apart() {
    let commands = draw_ruler(&strip(), 40, at(0, 0, 2, 0));
    assert_eq!(major_xs(&commands), vec![1000, 11_000, 21_000]);
    let wide = Region { left: -300, top: 0, width: 1000, height: 3500 };
    let commands = draw_ruler(&wide, 1, TimeOfDay::midnight());
    assert_eq!(major_xs(&commands), vec![-300, -50, 200, 450, 700]);
}

#[test]
fn labels_count_seconds_from_the_left_edge() {
    let commands = draw_ruler(&strip(), 40, at(0, 0, 2, 0));
    assert_eq!(labels(&commands), vec!["00:00:02", "00:00:03", "00:00:04"]);
}

#[test]
fn labels_wrap_at_midnight() {
    let commands = draw_ruler(&strip(), 40, at(23, 59, 59, 0));
    assert_eq!(labels(&commands), vec!["23:59:59", "00:00:00", "00:00:01"]);
}

#[test]
fn ruler_of_no_width_has_one_tick() {
    let narrow = Region { left: 0, top: 0, width: 0, height: 3500 };
    let commands = draw_ruler(&narrow, 40, TimeOfDay::midnight());
    assert_eq!(commands.len(), 2 + 11);
}

#[test]
fn ruler_of_negative_width_has_no_tick() {
    let inverted = Region { left: 0, top: 0, width: -1, height: 3500 };
    let commands = draw_ruler(&inverted, 40, TimeOfDay::midnight());
    assert_eq!(
        commands,
        vec![
            DrawCommand::ClipBegin { min: Point { x: 0, y: 0 }, max: Point { x: -1, y: 3500 } },
            DrawCommand::ClipEnd
        ]
    );
}

#[test]
fn ruler_narrower_than_a_second_has_one_tick() {
    let narrow = Region { left: 0, top: 0, width: 9_999, height: 3500 };
    assert_eq!(draw_ruler(&narrow, 40, TimeOfDay::midnight()).len(), 2 + 11);
    let exact = Region { left: 0, top: 0, width: 10_000, height: 3500 };
    assert_eq!(draw_ruler(&exact, 40, TimeOfDay::midnight()).len(), 2 + 22);
}

#[test]
fn playhead_is_a_marker_and_a_line() {
    let commands = draw_playhead(&strip(), 30_000, at(0, 0, 3, 500), at(0, 0, 2, 0), 40);
    assert_eq!(
        commands,
        vec![
            DrawCommand::Polyline {
                points: vec![
                    Point { x: 16_000, y: 4000 },
                    Point { x: 15_500, y: 3300 },
                    Point { x: 15_500, y: 2600 },
                    Point { x: 16_500, y: 2600 },
                    Point { x: 16_500, y: 3300 },
                ],
                color: RED,
                filled: true,
                thickness: 200
            },
            DrawCommand::Line {
                from: Point { x: 16_000, y: 2950 },
                to: Point { x: 16_000, y: 30_500 },
                color: RED,
                thickness: 200
            },
        ]
    );
}

#[test]
fn playhead_at_the_left_edge_is_drawn() {
    let commands = draw_playhead(&strip(), 30_000, at(0, 0, 2, 0), at(0, 0, 2, 0), 40);
    assert_eq!(commands.len(), 2);
    assert_eq!(
        commands[1],
        DrawCommand::Line {
            from: Point { x: 1000, y: 2950 },
            to: Point { x: 1000, y: 30_500 },
            color: RED,
            thickness: 200
        }
    );
}

#[test]
fn playhead_before_the_left_edge_is_not_drawn() {
    assert_eq!(draw_playhead(&strip(), 30_000, at(0, 0, 1, 999), at(0, 0, 2, 0), 40), vec![]);
    assert_eq!(draw_playhead(&strip(), 30_000, TimeOfDay::midnight(), at(0, 0, 2, 0), 40), vec![]);
    assert_eq!(draw_playhead(&strip(), 30_000, at(0, 0, 1, 999), at(0, 0, 2, 0), 1), vec![]);
}

#[test]
fn playhead_never_moves_left_as_time_grows() {
    let left = at(0, 0, 2, 0);
    let mut last = i64::MIN;
    for milli in 0..2000u32 {
        let time = left.wrapping_add_millis(milli as i64);
        let commands = draw_playhead(&strip(), 30_000, time, left, 3);
        match &commands[1] {
            DrawCommand::Line { from, .. } => {
                assert!(from.x >= last);
                last = from.x;
            }
            _ => panic!("the playhead's second command is its line"),
        }
    }
    // 1999 ms at 750 units per second, rounded down, right of the left edge.
    assert_eq!(last, 1000 + 1499);
}

#[test]
fn pointer_on_a_major_tick_means_a_whole_second() {
    assert_eq!(pointer_millis(0, 0, 40), 0);
    assert_eq!(pointer_millis(10_000, 0, 40), 1000);
    assert_eq!(pointer_millis(30_000, 0, 40), 3000);
    assert_eq!(pointer_millis(250, 0, 1), 1000);
    assert_eq!(pointer_millis(250_000, 0, 1000), 1000);
}

#[test]
fn pointer_is_measured_from_the_left_edge() {
    assert_eq!(pointer_millis(35_000, 20_000, 40), 1500);
    assert_eq!(pointer_millis(-5_000, -20_000, 40), 1500);
    assert_eq!(pointer_millis(20_000, 35_000, 40), -1500);
    assert_eq!(pointer_millis(i32::MAX, i32::MIN, 1), 0xffff_ffff * 4);
    assert_eq!(pointer_millis(i32::MIN, i32::MAX, 1), -0xffff_ffff * 4);
}

#[test]
fn pointer_between_ticks_rounds_toward_the_left_edge() {
    assert_eq!(pointer_millis(15_000, 0, 40), 1500);
    assert_eq!(pointer_millis(1, 0, 40), 0);
    assert_eq!(pointer_millis(19, 0, 40), 1);
    assert_eq!(pointer_millis(-1, 0, 40), 0);
    assert_eq!(pointer_millis(-19, 0, 40), -1);
    assert_eq!(pointer_millis(-21_000, 0, 40), -2100);
}
