use imgui_timeline::geometry::{floor_div, Point, Region, UNITS_PER_PIXEL};

#[test]
fn a_pixel_is_a_hundred_units() {
    assert_eq!(UNITS_PER_PIXEL, 100);
}

#[test]
fn floor_div_rounds_down_on_both_sides_of_zero() {
    assert_eq!(floor_div(7, 2), 3);
    assert_eq!(floor_div(-7, 2), -4);
    assert_eq!(floor_div(-8, 2), -4);
    assert_eq!(floor_div(0, 5), 0);
    assert_eq!(floor_div(-1, 1000), -1);
    assert_eq!(floor_div(999, 1000), 0);
    assert_eq!(floor_div(-1000, 1000), -1);
}

#[test]
fn floor_div_takes_the_extremes() {
    assert_eq!(floor_div(i64::MIN, 1), i64::MIN);
    assert_eq!(floor_div(i64::MIN, 2), i64::MIN / 2);
    assert_eq!(floor_div(i64::MIN + 1, 2), i64::MIN / 2);
    assert_eq!(floor_div(i64::MAX, i64::MAX), 1);
    assert_eq!(floor_div(i64::MIN, i64::MAX), -2);
    assert_eq!(floor_div(-1, i64::MAX), -1);
}

#[test]
fn region_corners() {
    let region = Region { left: 300, top: -400, width: 80_000, height: 1700 };
    assert_eq!(region.top_left(), Point { x: 300, y: -400 });
    assert_eq!(region.bottom_right(), Point { x: 80_300, y: 1300 });
}

#[test]
fn region_corners_do_not_overflow() {
    let region = Region { left: i32::MAX, top: i32::MIN, width: i32::MAX, height: i32::MIN };
    assert_eq!(region.top_left(), Point { x: 0x7fff_ffff, y: -0x8000_0000 });
    assert_eq!(region.bottom_right(), Point { x: 0xffff_fffe, y: -0x1_0000_0000 });
}

#[test]
fn region_heights_are_shares_of_a_thousand() {
    let region = Region { left: 0, top: 500, width: 0, height: 3500 };
    assert_eq!(region.at_height(7, 0), Point { x: 7, y: 500 });
    assert_eq!(region.at_height(7, 100), Point { x: 7, y: 850 });
    assert_eq!(region.at_height(7, 333), Point { x: 7, y: 1665 });
    assert_eq!(region.at_height(7, 666), Point { x: 7, y: 2831 });
    assert_eq!(region.at_height(7, 1000), Point { x: 7, y: 4000 });
    assert_eq!(region.at_height(-7, 2000), Point { x: -7, y: 7500 });
}

#[test]
fn region_heights_round_down_in_a_region_turned_over() {
    let region = Region { left: 0, top: 0, width: 0, height: -1 };
    assert_eq!(region.at_height(0, 333), Point { x: 0, y: -1 });
    assert_eq!(region.at_height(0, 1000), Point { x: 0, y: -1 });
    assert_eq!(region.at_height(0, 0), Point { x: 0, y: 0 });
}
