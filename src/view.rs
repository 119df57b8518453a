//! The render consumer's view state and its transitions.
//!
//! The render loop feeds the view each sample it drains and each input event
//! it polls; the view answers with what to draw or paint. Drawing itself is
//! left to the caller.
use vstd::prelude::*;
use crate::mapping::{
    BAND_HEIGHT, CHANNEL_COUNT, MAX_DEVICE_LEVEL, WINDOW_WIDTH, band_top, in_band,
    lemma_level_stays_in_band, level_to_y, parse_level_to_y, parse_time_to_x, time_to_x,
};

verus! {

/// Largest sequence position whose column still fits in an `i32`.
pub const MAX_POSITION: i32 = 1073741823;

/// Key code of the `S` key, which pauses drawing.
pub const KEY_PAUSE: i32 = 115;

/// Key code of the `R` key, which resumes drawing.
pub const KEY_RESUME: i32 = 114;

/// Key code of the `N` key, which moves to the next channel.
pub const KEY_NEXT_CHANNEL: i32 = 110;

/// Key code of the `C` key, which clears the current channel's lane.
pub const KEY_CLEAR: i32 = 99;

/// A colour as red, green and blue intensities.
#[derive(Clone, Copy, Debug, PartialEq, Eq, Structural)]
pub struct Rgb {
    pub r: u8,
    pub g: u8,
    pub b: u8,
}

/// A pixel position: column `x`, row `y`.
#[derive(Clone, Copy, Debug, PartialEq, Eq, Structural)]
pub struct Point {
    pub x: i32,
    pub y: i32,
}

/// An axis-aligned rectangle of pixels.
#[derive(Clone, Copy, Debug, PartialEq, Eq, Structural)]
pub struct Rect {
    pub x: i32,
    pub y: i32,
    pub width: u32,
    pub height: u32,
}

/// A line segment to draw, in the colour of `channel`.
#[derive(Clone, Copy, Debug, PartialEq, Eq, Structural)]
pub struct Segment {
    pub from: Point,
    pub to: Point,
    pub channel: usize,
}

/// What a recognised key asks of the view.
#[derive(Clone, Copy, Debug, PartialEq, Eq, Structural)]
pub enum Command {
    Pause,
    Resume,
    NextChannel,
    Clear,
    Ignore,
}

/// An input event, as the render loop polls it.
#[derive(Clone, Copy, Debug, PartialEq, Eq, Structural)]
pub enum InputEvent {
    /// The window was closed.
    Quit,
    /// A key was pressed; `code` is its key code.
    KeyDown { code: i32 },
    /// Any other event.
    Other,
}

/// What the render loop must do after an input event.
#[derive(Clone, Copy, Debug, PartialEq, Eq, Structural)]
pub enum ViewAction {
    /// Nothing to draw.
    Nothing,
    /// Send the stop signal once to the producer and leave the loop.
    Shutdown,
    /// Draw from now on in `color`.
    SetColor { color: Rgb },
    /// Paint `rect` in `background`, present, then restore the drawing colour.
    ClearBand { rect: Rect, background: Rgb },
}

/// The view: current channel, whether drawing is paused, the sequence
/// position of the next sample and the end of the last segment drawn.
#[derive(Clone, Copy, Debug, PartialEq, Eq, Structural)]
pub struct ViewState {
    pub channel: usize,
    pub detached: bool,
    pub position: i32,
    pub last_point: Point,
}

/// The colour of each channel's trace.
pub open spec fn spec_channel_color(channel: int) -> Rgb {
    if channel == 0 {
        Rgb { r: 140, g: 180, b: 140 }
    } else if channel == 1 {
        Rgb { r: 180, g: 140, b: 140 }
    } else if channel == 2 {
        Rgb { r: 140, g: 140, b: 180 }
    } else {
        Rgb { r: 180, g: 180, b: 140 }
    }
}

/// The background colour.
pub open spec fn spec_background() -> Rgb {
    Rgb { r: 0, g: 0, b: 0 }
}

/// The full-width rectangle covering the lane of `channel`.
pub open spec fn spec_band_rect(channel: int) -> Rect {
    Rect {
        x: 0,
        y: band_top(channel) as i32,
        width: WINDOW_WIDTH,
        height: BAND_HEIGHT as u32,
    }
}

/// The command bound to a key code.
pub open spec fn spec_command(code: i32) -> Command {
    if code == KEY_PAUSE {
        Command::Pause
    } else if code == KEY_RESUME {
        Command::Resume
    } else if code == KEY_NEXT_CHANNEL {
        Command::NextChannel
    } else if code == KEY_CLEAR {
        Command::Clear
    } else {
        Command::Ignore
    }
}

/// The view with a fresh trace: position 0, starting from the origin.
pub open spec fn restarted(v: ViewState) -> ViewState {
    ViewState { position: 0, last_point: Point { x: 0, y: 0 }, ..v }
}

/// The view after a command.
pub open spec fn command_next(v: ViewState, c: Command) -> ViewState {
    match c {
        Command::Pause => ViewState { detached: true, ..v },
        Command::Resume => ViewState { detached: false, ..v },
        Command::NextChannel => restarted(
            ViewState { channel: ((v.channel + 1) % (CHANNEL_COUNT as int)) as usize, ..v },
        ),
        Command::Clear => restarted(v),
        Command::Ignore => v,
    }
}

/// What the render loop must do after a command.
pub open spec fn command_action(v: ViewState, c: Command) -> ViewAction {
    match c {
        Command::NextChannel => ViewAction::SetColor {
            color: spec_channel_color((v.channel + 1) % (CHANNEL_COUNT as int)),
        },
        Command::Clear => ViewAction::ClearBand {
            rect: spec_band_rect(v.channel as int),
            background: spec_background(),
        },
        _ => ViewAction::Nothing,
    }
}

/// The view after an input event.
pub open spec fn event_next(v: ViewState, e: InputEvent) -> ViewState {
    match e {
        InputEvent::KeyDown { code } => command_next(v, spec_command(code)),
        _ => v,
    }
}

/// What the render loop must do after an input event.
pub open spec fn event_action(v: ViewState, e: InputEvent) -> ViewAction {
    match e {
        InputEvent::Quit => ViewAction::Shutdown,
        InputEvent::KeyDown { code } => command_action(v, spec_command(code)),
        InputEvent::Other => ViewAction::Nothing,
    }
}

/// The point at which `level` is drawn from the view `v`.
pub open spec fn sample_point(v: ViewState, level: u16) -> Point {
    Point {
        x: time_to_x(v.position as int) as i32,
        y: level_to_y(level as int, v.channel as int) as i32,
    }
}

/// The view after a sample arrives: a paused view ignores it.
pub open spec fn sample_next(v: ViewState, level: u16) -> ViewState {
    if v.detached {
        v
    } else {
        ViewState { position: (v.position + 1) as i32, last_point: sample_point(v, level), ..v }
    }
}

/// The segment drawn when a sample arrives, if any.
pub open spec fn sample_segment(v: ViewState, level: u16) -> Option<Segment> {
    if v.detached {
        None
    } else {
        Some(Segment { from: v.last_point, to: sample_point(v, level), channel: v.channel })
    }
}

/// The view after a run of samples.
pub open spec fn feed(v: ViewState, levels: Seq<u16>) -> ViewState
    decreases levels.len(),
{
    if levels.len() == 0 {
        v
    } else {
        feed(sample_next(v, levels[0]), levels.drop_first())
    }
}

/// The segments drawn over a run of samples, in order.
pub open spec fn drawn(v: ViewState, levels: Seq<u16>) -> Seq<Segment>
    decreases levels.len(),
{
    if levels.len() == 0 {
        Seq::empty()
    } else {
        let rest = drawn(sample_next(v, levels[0]), levels.drop_first());
        match sample_segment(v, levels[0]) {
            Some(s) => seq![s] + rest,
            None => rest,
        }
    }
}

/// Decodes a key code into a command; unbound keys are ignored.
pub fn command_for_key(code: i32) -> (r: Command)
    ensures
        r == spec_command(code),
{
    if code == KEY_PAUSE {
        Command::Pause
    } else if code == KEY_RESUME {
        Command::Resume
    } else if code == KEY_NEXT_CHANNEL {
        Command::NextChannel
    } else if code == KEY_CLEAR {
        Command::Clear
    } else {
        Command::Ignore
    }
}

/// The fixed colour of a channel's trace.
pub fn channel_color(channel: usize) -> (r: Rgb)
    requires
        channel < CHANNEL_COUNT,
    ensures
        r == spec_channel_color(channel as int),
{
    if channel == 0 {
        Rgb { r: 140, g: 180, b: 140 }
    } else if channel == 1 {
        Rgb { r: 180, g: 140, b: 140 }
    } else if channel == 2 {
        Rgb { r: 140, g: 140, b: 180 }
    } else {
        Rgb { r: 180, g: 180, b: 140 }
    }
}

/// The background colour.
pub fn background_color() -> (r: Rgb)
    ensures
        r == spec_background(),
{
    Rgb { r: 0, g: 0, b: 0 }
}

/// The rectangle that clearing the lane of `channel` paints.
pub fn band_rect(channel: usize) -> (r: Rect)
    requires
        channel < CHANNEL_COUNT,
    ensures
        r == spec_band_rect(channel as int),
{
    let top: i32 = channel as i32 * BAND_HEIGHT;
    Rect { x: 0, y: top, width: WINDOW_WIDTH, height: BAND_HEIGHT as u32 }
}

impl ViewState {
    /// A valid view: a channel that exists, a position whose column fits.
    pub open spec fn wf(&self) -> bool {
        &&& self.channel < CHANNEL_COUNT
        &&& 0 <= self.position <= MAX_POSITION
    }

    /// The view when the window opens: channel 0, drawing, a fresh trace.
    pub fn new() -> (r: ViewState)
        ensures
            r.wf(),
            r == (ViewState { channel: 0, detached: false, position: 0, last_point: Point { x: 0, y: 0 } }),
    {
        ViewState { channel: 0, detached: false, position: 0, last_point: Point { x: 0, y: 0 } }
    }

    /// The colour in which the current channel is drawn.
    pub fn color(&self) -> (r: Rgb)
        requires
            self.wf(),
        ensures
            r == spec_channel_color(self.channel as int),
    {
        channel_color(self.channel)
    }

    /// Whether one more sample can be drawn without its column overflowing.
    pub fn can_draw(&self) -> (r: bool)
        ensures
            r == (self.detached || self.position < MAX_POSITION),
    {
        self.detached || self.position < MAX_POSITION
    }

    /// Takes one sample: while drawing, returns the segment from the last
    /// point to the sample's point and advances; while paused, discards it.
    pub fn on_sample(&mut self, level: u16) -> (r: Option<Segment>)
        requires
            old(self).wf(),
            old(self).detached || old(self).position < MAX_POSITION,
        ensures
            final(self).wf(),
            *final(self) == sample_next(*old(self), level),
            r == sample_segment(*old(self), level),
    {
        if self.detached {
            return None;
        }
        let y = parse_level_to_y(level, self.channel as i32);
        let x = parse_time_to_x(self.position);
        let to = Point { x, y };
        let seg = Segment { from: self.last_point, to, channel: self.channel };
        self.position = self.position + 1;
        self.last_point = to;
        Some(seg)
    }

    /// Applies a command and returns what the render loop must draw.
    pub fn apply_command(&mut self, command: Command) -> (r: ViewAction)
        requires
            old(self).wf(),
        ensures
            final(self).wf(),
            *final(self) == command_next(*old(self), command),
            r == command_action(*old(self), command),
    {
        match command {
            Command::Pause => {
                self.detached = true;
                ViewAction::Nothing
            },
            Command::Resume => {
                self.detached = false;
                ViewAction::Nothing
            },
            Command::NextChannel => {
                self.channel = (self.channel + 1) % CHANNEL_COUNT;
                self.position = 0;
                self.last_point = Point { x: 0, y: 0 };
                ViewAction::SetColor { color: channel_color(self.channel) }
            },
            Command::Clear => {
                self.position = 0;
                self.last_point = Point { x: 0, y: 0 };
                ViewAction::ClearBand { rect: band_rect(self.channel), background: background_color() }
            },
            Command::Ignore => ViewAction::Nothing,
        }
    }

    /// Applies an input event and returns what the render loop must do.
    pub fn on_event(&mut self, event: InputEvent) -> (r: ViewAction)
        requires
            old(self).wf(),
        ensures
            final(self).wf(),
            *final(self) == event_next(*old(self), event),
            r == event_action(*old(self), event),
    {
        match event {
            InputEvent::Quit => ViewAction::Shutdown,
            InputEvent::KeyDown { code } => self.apply_command(command_for_key(code)),
            InputEvent::Other => ViewAction::Nothing,
        }
    }
}

/// Moving to the next channel starts a fresh trace: position 0, last point
/// at the origin, so the next segment drawn starts at the origin and ends in
/// the first column of the new channel's lane.
pub proof fn lemma_switch_restarts_trace(v: ViewState, level: u16)
    requires
        v.wf(),
        !v.detached,
    ensures
        ({
            let w = command_next(v, Command::NextChannel);
            &&& w.wf()
            &&& w.channel == (v.channel + 1) % (CHANNEL_COUNT as int)
            &&& w.position == 0
            &&& w.last_point == Point { x: 0, y: 0 }
            &&& sample_segment(w, level) == Some(
                Segment {
                    from: Point { x: 0, y: 0 },
                    to: Point { x: 0, y: level_to_y(level as int, w.channel as int) as i32 },
                    channel: w.channel,
                },
            )
        }),
{
}

/// Clearing restarts the trace exactly as a channel switch does, keeps the
/// channel, and paints the full width of the current lane and nothing else:
/// no row of another lane, and no point of another channel's trace.
pub proof fn lemma_clear_repaints_own_band(v: ViewState)
    requires
        v.wf(),
    ensures
        ({
            let cleared = command_next(v, Command::Clear);
            let switched = command_next(v, Command::NextChannel);
            &&& cleared.position == switched.position
            &&& cleared.last_point == switched.last_point
            &&& cleared == ViewState { position: 0, last_point: Point { x: 0, y: 0 }, ..v }
        }),
        command_action(v, Command::Clear) == (ViewAction::ClearBand {
            rect: spec_band_rect(v.channel as int),
            background: spec_background(),
        }),
        spec_band_rect(v.channel as int).x == 0,
        spec_band_rect(v.channel as int).width == WINDOW_WIDTH,
        forall|y: int|
            spec_band_rect(v.channel as int).y <= y < spec_band_rect(v.channel as int).y
                + spec_band_rect(v.channel as int).height <==> #[trigger] in_band(
                y,
                v.channel as int,
            ),
        forall|level: int, other: int|
            0 <= level <= MAX_DEVICE_LEVEL && 0 <= other < CHANNEL_COUNT && other != v.channel
                ==> !#[trigger] in_band(level_to_y(level, other), v.channel as int),
{
    assert forall|level: int, other: int|
        0 <= level <= MAX_DEVICE_LEVEL && 0 <= other < CHANNEL_COUNT && other
            != v.channel implies !#[trigger] in_band(level_to_y(level, other), v.channel as int) by {
        lemma_level_stays_in_band(level, other);
        assert(!in_band(level_to_y(level, other), v.channel as int));
    }
}

/// While paused, any run of samples draws nothing and leaves the view as it
/// was; resuming then continues from the position and last point held when
/// the pause began.
pub proof fn lemma_pause_resume(v: ViewState, levels: Seq<u16>)
    requires
        v.wf(),
    ensures
        ({
            let paused = command_next(v, Command::Pause);
            &&& feed(paused, levels) == paused
            &&& drawn(paused, levels) == Seq::<Segment>::empty()
            &&& command_next(feed(paused, levels), Command::Resume) == ViewState {
                detached: false,
                ..v
            }
        }),
{
    lemma_detached_is_inert(command_next(v, Command::Pause), levels);
}

/// A paused view ignores every run of samples.
pub proof fn lemma_detached_is_inert(v: ViewState, levels: Seq<u16>)
    requires
        v.detached,
    ensures
        feed(v, levels) == v,
        drawn(v, levels) == Seq::<Segment>::empty(),
    decreases levels.len(),
{
    if levels.len() > 0 {
        lemma_detached_is_inert(v, levels.drop_first());
    }
}

} // verus!
