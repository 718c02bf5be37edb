use imgui_timeline::geometry::Point;
use imgui_timeline::timeline::Timeline;
use imgui_timeline::track::{center_in_row, HeadCell, HeadLabel, KeyFrameTrack, Track, TrackKind};

fn cell() -> HeadCell {
    HeadCell { width: 20_000, text_width: 4_200, cursor_y: 7_000, line_height: 1_700 }
}

#[test]
fn keyframe_track_is_thirty_pixels_high() {
    assert_eq!(KeyFrameTrack::TRACK_HEIGHT, 3000);
    assert_eq!(KeyFrameTrack::new("Position").head_config().1, 3000);
}

#[test]
fn keyframe_track_names_its_row_after_itself() {
    let track = KeyFrameTrack::new("Position");
    assert_eq!(track.head_config(), (String::from("keyframe_track_head_Position"), 3000));
    let unnamed = KeyFrameTrack::new("");
    assert_eq!(unnamed.head_config(), (String::from("keyframe_track_head_"), 3000));
}

#[test]
fn keyframe_track_centres_its_name() {
    let track = KeyFrameTrack::new("Position");
    assert_eq!(
        track.draw_head(&cell()),
        HeadLabel { at: Point { x: 7_900, y: 7_650 }, text: String::from("Position") }
    );
}

#[test]
fn track_kind_answers_as_the_track_it_holds() {
    let kind = TrackKind::KeyFrame(KeyFrameTrack::new("Scale"));
    assert_eq!(kind.head_config(), KeyFrameTrack::new("Scale").head_config());
    assert_eq!(kind.draw_head(&cell()), KeyFrameTrack::new("Scale").draw_head(&cell()));
}

#[test]
fn centring_rounds_down() {
    let odd = HeadCell { width: 11, text_width: 0, cursor_y: 0, line_height: 0 };
    assert_eq!(center_in_row(&odd, 3), Point { x: 5, y: 1 });
}

#[test]
fn text_wider_than_its_row_starts_left_of_it() {
    let tight = HeadCell { width: 1_000, text_width: 1_501, cursor_y: 100, line_height: 4_001 };
    assert_eq!(center_in_row(&tight, 3000), Point { x: -251, y: 100 - 501 });
}

#[test]
fn centring_takes_the_widest_measurements() {
    let wide = HeadCell {
        width: i32::MAX,
        text_width: i32::MIN,
        cursor_y: i32::MAX,
        line_height: i32::MIN,
    };
    assert_eq!(
        center_in_row(&wide, u32::MAX),
        Point { x: 0xffff_ffff / 2, y: 0x7fff_ffff + (0xffff_ffff + 0x8000_0000) / 2 }
    );
}

#[test]
fn new_timeline_has_the_default_tracks_in_order() {
    let timeline = Timeline::new("Main");
    let names = [
        "Test", "Test 2", "Transform", "Rotation4", "Rotation3", "Rotation1", "Rotation2",
        "Rotation", "Rotation5", "Rotation6", "Rotation7", "Rotation8", "Rotation9", "Rotationa",
        "Rotations", "Rotationg", "Rotationgg", "Dummy 1", "Dummy 2", "Dummy 3", "Dummy 4",
        "Dummy 5", "Dummy 6", "Dummy 7", "Dummy 8", "Dummy 9", "Dummy 10", "Dummy 11",
    ];
    let rows = timeline.track_rows();
    assert_eq!(rows.len(), names.len());
    for (row, name) in rows.iter().zip(names.iter()) {
        assert_eq!(row, &(format!("keyframe_track_head_{}", name), 3000));
    }
    for (track, name) in timeline.tracks().iter().zip(names.iter()) {
        assert_eq!(track.draw_head(&cell()).text, *name);
    }
}

#[test]
fn added_tracks_come_last_in_the_order_added() {
    let mut timeline = Timeline::new("Main");
    timeline.add_track(TrackKind::KeyFrame(KeyFrameTrack::new("Opacity")));
    timeline.add_track(TrackKind::KeyFrame(KeyFrameTrack::new("Colour")));
    let rows = timeline.track_rows();
    assert_eq!(rows.len(), 30);
    assert_eq!(rows[0], (String::from("keyframe_track_head_Test"), 3000));
    assert_eq!(rows[27], (String::from("keyframe_track_head_Dummy 11"), 3000));
    assert_eq!(rows[28], (String::from("keyframe_track_head_Opacity"), 3000));
    assert_eq!(rows[29], (String::from("keyframe_track_head_Colour"), 3000));
}

#[test]
fn tracks_of_the_same_name_each_get_a_row() {
    let mut timeline = Timeline::new("Main");
    timeline.add_track(TrackKind::KeyFrame(KeyFrameTrack::new("Test")));
    timeline.add_track(TrackKind::KeyFrame(KeyFrameTrack::new("Between")));
    timeline.add_track(TrackKind::KeyFrame(KeyFrameTrack::new("Test")));
    let rows = timeline.track_rows();
    assert_eq!(rows.len(), 31);
    assert_eq!(rows[0].0, "keyframe_track_head_Test");
    assert_eq!(rows[28].0, "keyframe_track_head_Test");
    assert_eq!(rows[29].0, "keyframe_track_head_Between");
    assert_eq!(rows[30].0, "keyframe_track_head_Test");
    assert_eq!(timeline.tracks().len(), 31);
}
