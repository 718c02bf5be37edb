//! The timeline widget: its clock, its tracks, and how time, the keyboard
//! and the pointer change it.

use crate::geometry::DrawModel;
use crate::geometry::Region;
use crate::ruler::click_millis;
use crate::ruler::lemma_click_millis_at_ticks;
use crate::ruler::lemma_playhead_hidden;
use crate::ruler::lemma_playhead_monotonic;
use crate::ruler::playhead_commands;
use crate::ruler::playhead_offset;
use crate::ruler::pointer_millis;
use crate::ruler::second_width;
use crate::ruler::valid_scale;
use crate::ruler::MAX_TIME_SCALE;
use crate::ruler::MIN_TIME_SCALE;
use crate::time::clock_text;
use crate::time::lemma_shifted_moves;
use crate::time::lemma_shifted_range;
use crate::time::millis_text;
use crate::time::shifted;
use crate::time::TimeOfDay;
use crate::time::MILLIS_PER_DAY;
use crate::time::NANOS_PER_DAY;
use crate::time::NANOS_PER_MILLI;
use crate::track::KeyFrameTrack;
use crate::track::Track;
use crate::track::TrackKind;
use vstd::prelude::*;
use vstd::string::StringExecFns;

verus! {

/// The slowest playback speed, in hundredths.
pub const MIN_PLAYBACK_SPEED: u32 = 10;

/// The fastest playback speed, in hundredths.
pub const MAX_PLAYBACK_SPEED: u32 = 500;

/// The time scale a new timeline starts with: 0.40.
pub const DEFAULT_TIME_SCALE: u32 = 40;

/// The playback speed a new timeline starts with: 1.00.
pub const DEFAULT_PLAYBACK_SPEED: u32 = 100;

/// The widget: a clock, the tracks in display order, and the two factors the
/// toolbar edits.
#[derive(Debug)]
pub struct Timeline {
    window_ident: String,
    name: String,
    time: TimeOfDay,
    left_time: TimeOfDay,
    tracks: Vec<TrackKind>,
    time_scale: u32,
    playback_speed: u32,
    playing: bool,
}

/// The state of a [`Timeline`] as plain values. Times are nanoseconds since
/// midnight; the two factors are hundredths.
pub struct TimelineView {
    pub name: Seq<char>,
    pub window_ident: Seq<char>,
    pub time: int,
    pub left_time: int,
    pub tracks: Seq<TrackKind>,
    pub time_scale: int,
    pub playback_speed: int,
    pub playing: bool,
}

/// The pattern the clock's two starting times are written in.
pub open spec fn start_format() -> Seq<char> {
    "%H:%M:%S%.f"@
}

/// What stands between the two copies of the name in a window identifier.
pub open spec fn ident_infix() -> Seq<char> {
    "##imgui_timeline_rs_timeline_"@
}

/// The names of the tracks a new timeline holds, in display order.
pub open spec fn default_track_names() -> Seq<Seq<char>> {
    seq![
        "Test"@,
        "Test 2"@,
        "Transform"@,
        "Rotation4"@,
        "Rotation3"@,
        "Rotation1"@,
        "Rotation2"@,
        "Rotation"@,
        "Rotation5"@,
        "Rotation6"@,
        "Rotation7"@,
        "Rotation8"@,
        "Rotation9"@,
        "Rotationa"@,
        "Rotations"@,
        "Rotationg"@,
        "Rotationgg"@,
        "Dummy 1"@,
        "Dummy 2"@,
        "Dummy 3"@,
        "Dummy 4"@,
        "Dummy 5"@,
        "Dummy 6"@,
        "Dummy 7"@,
        "Dummy 8"@,
        "Dummy 9"@,
        "Dummy 10"@,
        "Dummy 11"@,
    ]
}

/// Whether the two starting times read as midnight and two seconds past it.
pub open spec fn start_times_parse() -> bool {
    &&& TimeOfDay::spec_parse("00:00:00.0"@, start_format()) == Some(0int)
    &&& TimeOfDay::spec_parse("00:00:02.0"@, start_format()) == Some(2_000_000_000int)
}

/// The milliseconds of timeline time that pass in `dt_micros` microseconds
/// of real time at the given playback speed, rounded down.
pub open spec fn elapsed_millis(dt_micros: int, speed: int) -> int {
    dt_micros * speed / 100_000
}

/// `value` brought into the range from `low` to `high`.
pub open spec fn clamped(value: int, low: int, high: int) -> int {
    if value < low {
        low
    } else if value > high {
        high
    } else {
        value
    }
}

/// The identifiers and heights in a list of rows.
pub open spec fn row_models(rows: Seq<(String, u32)>) -> Seq<(Seq<char>, int)> {
    Seq::new(rows.len(), |i: int| (rows[i].0@, rows[i].1 as int))
}

impl TimelineView {
    /// Both times are whole milliseconds within the day, both factors are
    /// in the range their controls allow, and the window identifier is made
    /// of the name.
    pub open spec fn wf(self) -> bool {
        &&& 0 <= self.time < NANOS_PER_DAY
        &&& self.time % (NANOS_PER_MILLI as int) == 0
        &&& 0 <= self.left_time < NANOS_PER_DAY
        &&& self.left_time % (NANOS_PER_MILLI as int) == 0
        &&& valid_scale(self.time_scale)
        &&& MIN_PLAYBACK_SPEED <= self.playback_speed <= MAX_PLAYBACK_SPEED
        &&& self.window_ident == self.name + ident_infix() + self.name
    }

    /// What a new timeline of the given name holds: the clock paused at
    /// midnight, the ruler starting two seconds later, the default factors,
    /// and the default tracks in their order.
    pub open spec fn starts_as(self, name: Seq<char>) -> bool {
        &&& self.name == name
        &&& self.window_ident == name + ident_infix() + name
        &&& self.time == 0
        &&& self.left_time == 2_000_000_000
        &&& self.time_scale == DEFAULT_TIME_SCALE
        &&& self.playback_speed == DEFAULT_PLAYBACK_SPEED
        &&& !self.playing
        &&& self.tracks.len() == default_track_names().len()
        &&& forall|i: int|
            0 <= i < self.tracks.len() ==> #[trigger] self.tracks[i].spec_name()
                == default_track_names()[i]
    }

    /// The state after `dt_micros` microseconds of real time: while playing
    /// the clock moves on, wrapping at midnight; while paused nothing moves.
    pub open spec fn advanced(self, dt_micros: int) -> TimelineView {
        if self.playing {
            TimelineView {
                time: shifted(self.time, elapsed_millis(dt_micros, self.playback_speed)),
                ..self
            }
        } else {
            self
        }
    }

    /// The state with playing and paused exchanged.
    pub open spec fn toggled(self) -> TimelineView {
        TimelineView { playing: !self.playing, ..self }
    }

    /// The state after the keyboard was looked at: the space bar toggles
    /// playback while the widget has focus.
    pub open spec fn after_key(self, focused: bool, space_pressed: bool) -> TimelineView {
        if focused && space_pressed {
            self.toggled()
        } else {
            self
        }
    }

    /// The state after a click `local_x` right of the ruler's left edge: the
    /// playhead goes to the time under the pointer.
    pub open spec fn clicked(self, local_x: int) -> TimelineView {
        TimelineView {
            time: shifted(self.left_time, click_millis(local_x, self.time_scale)),
            ..self
        }
    }

    /// The state with the time scale set, brought into its range.
    pub open spec fn with_time_scale(self, hundredths: int) -> TimelineView {
        TimelineView {
            time_scale: clamped(hundredths, MIN_TIME_SCALE as int, MAX_TIME_SCALE as int),
            ..self
        }
    }

    /// The state with the playback speed set, brought into its range.
    pub open spec fn with_playback_speed(self, hundredths: int) -> TimelineView {
        TimelineView {
            playback_speed: clamped(
                hundredths,
                MIN_PLAYBACK_SPEED as int,
                MAX_PLAYBACK_SPEED as int,
            ),
            ..self
        }
    }

    /// The playhead as it is drawn over a ruler strip inside an editor of
    /// the given height.
    pub open spec fn playhead(self, ruler: Region, outer_height: int) -> Seq<DrawModel> {
        playhead_commands(ruler, outer_height, self.time, self.left_time, self.time_scale)
    }

    /// The playhead's time as the ruler row shows it: `HH:MM:SS.mmm`.
    pub open spec fn clock(self) -> Seq<char> {
        clock_text(self.time) + millis_text(self.time)
    }

    /// The state with one more track below the others.
    pub open spec fn with_track(self, track: TrackKind) -> TimelineView {
        TimelineView { tracks: self.tracks.push(track), ..self }
    }

    /// The identifier and height of each track's row, top to bottom.
    pub open spec fn rows(self) -> Seq<(Seq<char>, int)> {
        Seq::new(
            self.tracks.len(),
            |i: int| (self.tracks[i].head_ident(), self.tracks[i].header_height()),
        )
    }

    /// While the clock runs, real time that amounts to anything but whole
    /// days of timeline time moves the clock, and moves it ahead: counted
    /// round the clock, the new time is later than the old by the time that
    /// passed.
    pub proof fn lemma_advance_moves_clock(self, dt_micros: int)
        requires
            self.wf(),
            self.playing,
            0 <= dt_micros,
            elapsed_millis(dt_micros, self.playback_speed) % (MILLIS_PER_DAY as int) != 0,
        ensures
            self.advanced(dt_micros).wf(),
            self.advanced(dt_micros).time != self.time,
            (self.advanced(dt_micros).time - self.time) % (NANOS_PER_DAY as int) == (elapsed_millis(
                dt_micros,
                self.playback_speed,
            ) * NANOS_PER_MILLI) % (NANOS_PER_DAY as int),
    {
        let millis = elapsed_millis(dt_micros, self.playback_speed);
        lemma_shifted_range(self.time, millis);
        lemma_shifted_moves(self.time, millis);
    }

    /// No time passing, or the clock being paused, leaves everything as it
    /// is.
    pub proof fn lemma_advance_idle(self, dt_micros: int)
        requires
            self.wf(),
        ensures
            self.advanced(0) == self,
            !self.playing ==> self.advanced(dt_micros) == self,
    {
        assert(elapsed_millis(0, self.playback_speed) == 0);
        lemma_shifted_moves(self.time, 0);
    }

    /// The playhead never moves left as its time grows, the left edge's
    /// time and the time scale staying as they are; and it is drawn exactly
    /// when its time is not before the left edge's.
    pub proof fn lemma_playhead_follows_time(
        self,
        later: TimelineView,
        ruler: Region,
        outer_height: int,
    )
        requires
            self.wf(),
            later.wf(),
            self.left_time == later.left_time,
            self.time_scale == later.time_scale,
            self.time <= later.time,
        ensures
            playhead_offset(self.time, self.left_time, self.time_scale) <= playhead_offset(
                later.time,
                later.left_time,
                later.time_scale,
            ),
            self.time < self.left_time <==> self.playhead(ruler, outer_height).len() == 0,
            self.time >= self.left_time <==> self.playhead(ruler, outer_height).len() == 2,
    {
        lemma_playhead_monotonic(self.time, later.time, self.left_time, self.time_scale);
        lemma_playhead_hidden(self.time, self.left_time, self.time_scale);
    }

    /// A click on the ruler's left edge puts the playhead at the left
    /// edge's time, and a click one second width right of it one second
    /// later.
    pub proof fn lemma_click_on_ticks(self)
        requires
            self.wf(),
        ensures
            self.clicked(0).time == self.left_time,
            self.clicked(second_width(self.time_scale)).time == shifted(self.left_time, 1000),
            self.left_time + 1000 * NANOS_PER_MILLI < NANOS_PER_DAY ==> self.clicked(
                second_width(self.time_scale),
            ).time == self.left_time + 1000 * NANOS_PER_MILLI,
    {
        lemma_click_millis_at_ticks(self.time_scale);
        lemma_shifted_moves(self.left_time, 0);
        if self.left_time + 1000 * NANOS_PER_MILLI < NANOS_PER_DAY {
            vstd::arithmetic::div_mod::lemma_small_mod(
                (self.left_time + 1000 * NANOS_PER_MILLI) as nat,
                NANOS_PER_DAY as nat,
            );
        }
    }

    /// Toggling playback twice changes nothing, and toggling it once
    /// changes nothing but whether the clock runs. A paused clock that is
    /// started, runs for a while and is paused again has moved by what
    /// passed in between and is otherwise as it was.
    pub proof fn lemma_toggle_twice(self, dt_micros: int)
        ensures
            self.toggled().toggled() == self,
            self.toggled() == (TimelineView { playing: !self.playing, ..self }),
            !self.playing ==> self.toggled().advanced(dt_micros).toggled() == (TimelineView {
                time: shifted(self.time, elapsed_millis(dt_micros, self.playback_speed)),
                ..self
            }),
    {
    }

    /// The rows are the tracks' rows in the order of the tracks, whatever
    /// the tracks are called; a track that is added gets the row below the
    /// others and leaves theirs alone.
    pub proof fn lemma_rows_follow_tracks(self, track: TrackKind)
        ensures
            self.rows().len() == self.tracks.len(),
            forall|i: int|
                0 <= i < self.tracks.len() ==> #[trigger] self.rows()[i] == (
                    self.tracks[i].head_ident(),
                    self.tracks[i].header_height(),
                ),
            self.with_track(track).rows() == self.rows().push(
                (track.head_ident(), track.header_height()),
            ),
    {
        assert(self.with_track(track).rows() =~= self.rows().push(
            (track.head_ident(), track.header_height()),
        ));
    }
}

impl View for Timeline {
    type V = TimelineView;

    closed spec fn view(&self) -> TimelineView {
        TimelineView {
            name: self.name@,
            window_ident: self.window_ident@,
            time: self.time@,
            left_time: self.left_time@,
            tracks: self.tracks@,
            time_scale: self.time_scale as int,
            playback_speed: self.playback_speed as int,
            playing: self.playing,
        }
    }
}

/// Appends a keyframe track of the given name.
fn push_key_frame(tracks: &mut Vec<TrackKind>, name: &str)
    ensures
        final(tracks)@.len() == old(tracks)@.len() + 1,
        final(tracks)@.take(old(tracks)@.len() as int) == old(tracks)@,
        final(tracks)@.last().spec_name() == name@,
{
    tracks.push(TrackKind::KeyFrame(KeyFrameTrack::new(name)));
    assert(tracks@.take(old(tracks)@.len() as int) =~= old(tracks)@);
}

impl Timeline {
    /// The state is well-formed.
    pub closed spec fn wf(&self) -> bool {
        &&& self.time.wf()
        &&& self.left_time.wf()
        &&& self@.wf()
    }

    /// A well-formed timeline has a well-formed state.
    pub proof fn lemma_wf_view(&self)
        requires
            self.wf(),
        ensures
            self@.wf(),
    {
    }

    /// A timeline of the given name: paused at midnight, the ruler starting
    /// two seconds later, with the default tracks. The two starting times
    /// are read from text, and have to read as what they say; where that is
    /// not known, [`Timeline::try_new`] finds out.
    pub fn new(name: &str) -> (timeline: Timeline)
        requires
            start_times_parse(),
        ensures
            timeline.wf(),
            timeline@.starts_as(name@),
    {
        let mut window_ident: String = String::from_str(name);
        window_ident.append("##imgui_timeline_rs_timeline_");
        window_ident.append(name);
        let time: TimeOfDay = TimeOfDay::parse_from_str("00:00:00.0", "%H:%M:%S%.f").unwrap();
        let left_time: TimeOfDay = TimeOfDay::parse_from_str("00:00:02.0", "%H:%M:%S%.f").unwrap();
        let mut tracks: Vec<TrackKind> = Vec::new();
        push_key_frame(&mut tracks, "Test");
        push_key_frame(&mut tracks, "Test 2");
        push_key_frame(&mut tracks, "Transform");
        push_key_frame(&mut tracks, "Rotation4");
        push_key_frame(&mut tracks, "Rotation3");
        push_key_frame(&mut tracks, "Rotation1");
        push_key_frame(&mut tracks, "Rotation2");
        push_key_frame(&mut tracks, "Rotation");
        push_key_frame(&mut tracks, "Rotation5");
        push_key_frame(&mut tracks, "Rotation6");
        push_key_frame(&mut tracks, "Rotation7");
        push_key_frame(&mut tracks, "Rotation8");
        push_key_frame(&mut tracks, "Rotation9");
        push_key_frame(&mut tracks, "Rotationa");
        push_key_frame(&mut tracks, "Rotations");
        push_key_frame(&mut tracks, "Rotationg");
        push_key_frame(&mut tracks, "Rotationgg");
        push_key_frame(&mut tracks, "Dummy 1");
        push_key_frame(&mut tracks, "Dummy 2");
        push_key_frame(&mut tracks, "Dummy 3");
        push_key_frame(&mut tracks, "Dummy 4");
        push_key_frame(&mut tracks, "Dummy 5");
        push_key_frame(&mut tracks, "Dummy 6");
        push_key_frame(&mut tracks, "Dummy 7");
        push_key_frame(&mut tracks, "Dummy 8");
        push_key_frame(&mut tracks, "Dummy 9");
        push_key_frame(&mut tracks, "Dummy 10");
        push_key_frame(&mut tracks, "Dummy 11");
        Timeline {
            window_ident,
            name: String::from_str(name),
            time,
            left_time,
            tracks,
            time_scale: DEFAULT_TIME_SCALE,
            playback_speed: DEFAULT_PLAYBACK_SPEED,
            playing: false,
        }
    }

    /// A timeline of the given name, or `None` where the two starting times
    /// do not read as midnight and two seconds past it.
    pub fn try_new(name: &str) -> (r: Option<Timeline>)
        ensures
            r is Some <==> start_times_parse(),
            r matches Some(timeline) ==> timeline.wf() && timeline@.starts_as(name@),
    {
        let time: Option<TimeOfDay> = TimeOfDay::parse_from_str("00:00:00.0", "%H:%M:%S%.f");
        let left_time: Option<TimeOfDay> = TimeOfDay::parse_from_str("00:00:02.0", "%H:%M:%S%.f");
        match (time, left_time) {
            (Some(time), Some(left_time)) => {
                proof {
                    time.lemma_view_bounds();
                    left_time.lemma_view_bounds();
                }
                if time.seconds() == 0 && time.nanosecond() == 0 && left_time.seconds() == 2
                    && left_time.nanosecond() == 0 {
                    Some(Timeline::new(name))
                } else {
                    None
                }
            },
            _ => None,
        }
    }

    /// The display name.
    pub fn name(&self) -> (name: &String)
        ensures
            name@ == self@.name,
    {
        &self.name
    }

    /// The identifier of the widget's window: the name, an infix, and the
    /// name again.
    pub fn window_ident(&self) -> (ident: &String)
        ensures
            ident@ == self@.window_ident,
    {
        &self.window_ident
    }

    /// The playhead's time.
    pub fn time(&self) -> (time: TimeOfDay)
        requires
            self.wf(),
        ensures
            time.wf(),
            time@ == self@.time,
    {
        self.time
    }

    /// The time at the ruler's left edge.
    pub fn left_time(&self) -> (time: TimeOfDay)
        requires
            self.wf(),
        ensures
            time.wf(),
            time@ == self@.left_time,
    {
        self.left_time
    }

    /// The time scale, in hundredths.
    pub fn time_scale(&self) -> (hundredths: u32)
        ensures
            hundredths == self@.time_scale,
    {
        self.time_scale
    }

    /// The playback speed, in hundredths.
    pub fn playback_speed(&self) -> (hundredths: u32)
        ensures
            hundredths == self@.playback_speed,
    {
        self.playback_speed
    }

    /// Whether the clock is running.
    pub fn is_playing(&self) -> (playing: bool)
        ensures
            playing == self@.playing,
    {
        self.playing
    }

    /// The tracks, top to bottom.
    pub fn tracks(&self) -> (tracks: &Vec<TrackKind>)
        ensures
            tracks@ == self@.tracks,
    {
        &self.tracks
    }

    /// Sets the time scale, brought into the range of its control.
    pub fn set_time_scale(&mut self, hundredths: u32)
        requires
            old(self).wf(),
        ensures
            final(self).wf(),
            final(self)@ == old(self)@.with_time_scale(hundredths as int),
    {
        if hundredths < MIN_TIME_SCALE {
            self.time_scale = MIN_TIME_SCALE;
        } else if hundredths > MAX_TIME_SCALE {
            self.time_scale = MAX_TIME_SCALE;
        } else {
            self.time_scale = hundredths;
        }
    }

    /// Sets the playback speed, brought into the range of its control.
    pub fn set_playback_speed(&mut self, hundredths: u32)
        requires
            old(self).wf(),
        ensures
            final(self).wf(),
            final(self)@ == old(self)@.with_playback_speed(hundredths as int),
    {
        if hundredths < MIN_PLAYBACK_SPEED {
            self.playback_speed = MIN_PLAYBACK_SPEED;
        } else if hundredths > MAX_PLAYBACK_SPEED {
            self.playback_speed = MAX_PLAYBACK_SPEED;
        } else {
            self.playback_speed = hundredths;
        }
    }

    /// Adds a track below the others.
    pub fn add_track(&mut self, track: TrackKind)
        requires
            old(self).wf(),
        ensures
            final(self).wf(),
            final(self)@ == old(self)@.with_track(track),
    {
        self.tracks.push(track);
    }

    /// Moves the clock on by `dt_micros` microseconds of real time at the
    /// playback speed, if the clock is running.
    pub fn advance(&mut self, dt_micros: u64)
        requires
            old(self).wf(),
        ensures
            final(self).wf(),
            final(self)@ == old(self)@.advanced(dt_micros as int),
    {
        if self.playing {
            let dt: u128 = dt_micros as u128;
            let speed: u128 = self.playback_speed as u128;
            assert(0 <= dt * speed <= 0xffff_ffff_ffff_ffff * 500) by (nonlinear_arith)
                requires
                    0 <= dt <= 0xffff_ffff_ffff_ffff,
                    0 <= speed <= 500,
            ;
            let millis: i64 = (dt * speed / 100_000) as i64;
            proof {
                lemma_shifted_range(self.time@, millis as int);
            }
            self.time = self.time.wrapping_add_millis(millis);
        }
    }

    /// Starts the clock if it is paused, pauses it if it is running.
    pub fn toggle_playing(&mut self)
        requires
            old(self).wf(),
        ensures
            final(self).wf(),
            final(self)@ == old(self)@.toggled(),
    {
        self.playing = !self.playing;
    }

    /// Looks at the keyboard: the space bar toggles playback while the
    /// widget has focus.
    pub fn handle_key_press(&mut self, focused: bool, space_pressed: bool)
        requires
            old(self).wf(),
        ensures
            final(self).wf(),
            final(self)@ == old(self)@.after_key(focused, space_pressed),
    {
        if focused && space_pressed {
            self.toggle_playing();
        }
    }

    /// Takes a click, given where the pointer is and where the ruler's left
    /// edge is: the playhead goes to the time under the pointer.
    pub fn handle_pointer_at(&mut self, mouse_x: i32, ruler_left: i32)
        requires
            old(self).wf(),
        ensures
            final(self).wf(),
            final(self)@ == old(self)@.clicked(mouse_x - ruler_left),
    {
        let millis: i64 = pointer_millis(mouse_x, ruler_left, self.time_scale);
        proof {
            lemma_shifted_range(self.left_time@, millis as int);
        }
        self.time = self.left_time.wrapping_add_millis(millis);
    }

    /// Takes a click `local_x` right of the ruler's left edge: the playhead
    /// goes to the time under the pointer.
    pub fn handle_pointer_click(&mut self, local_x: i32)
        requires
            old(self).wf(),
        ensures
            final(self).wf(),
            final(self)@ == old(self)@.clicked(local_x as int),
    {
        self.handle_pointer_at(local_x, 0);
    }

    /// The playhead's time as `HH:MM:SS.mmm`.
    pub fn clock_label(&self) -> (text: String)
        requires
            self.wf(),
        ensures
            text@ == self@.clock(),
    {
        self.time.format_millis()
    }

    /// Identifier and height of each track's row, top to bottom.
    pub fn track_rows(&self) -> (rows: Vec<(String, u32)>)
        ensures
            row_models(rows@) == self@.rows(),
    {
        let mut rows: Vec<(String, u32)> = Vec::new();
        let mut i: usize = 0;
        while i < self.tracks.len()
            invariant
                i <= self.tracks.len(),
                rows.len() == i,
                forall|j: int|
                    0 <= j < i ==> (#[trigger] rows@[j]).0@ == self.tracks@[j].head_ident()
                        && rows@[j].1 == self.tracks@[j].header_height(),
            decreases self.tracks.len() - i,
        {
            let config: (String, u32) = self.tracks[i].head_config();
            rows.push(config);
            i += 1;
        }
        assert(row_models(rows@) =~= self@.rows());
        rows
    }
}

} // verus!
