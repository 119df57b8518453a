use duraplot::codec::parse_buffer_data;
use duraplot::view::{
    background_color, band_rect, channel_color, command_for_key, Command, InputEvent, Point,
    Rect, Rgb, Segment, ViewAction, ViewState,
};

fn key(c: char) -> InputEvent {
    InputEvent::KeyDown { code: c as i32 }
}

#[test]
fn keys_map_to_commands() {
    assert_eq!(command_for_key('s' as i32), Command::Pause);
    assert_eq!(command_for_key('r' as i32), Command::Resume);
    assert_eq!(command_for_key('n' as i32), Command::NextChannel);
    assert_eq!(command_for_key('c' as i32), Command::Clear);
    assert_eq!(command_for_key('x' as i32), Command::Ignore);
    assert_eq!(command_for_key('S' as i32), Command::Ignore);
}

#[test]
fn fresh_view_starts_on_channel_zero() {
    let v = ViewState::new();
    assert_eq!(v.channel, 0);
    assert!(!v.detached);
    assert_eq!(v.position, 0);
    assert_eq!(v.last_point, Point { x: 0, y: 0 });
    assert_eq!(v.color(), Rgb { r: 140, g: 180, b: 140 });
}

#[test]
fn channel_colors_are_distinct() {
    assert_eq!(channel_color(0), Rgb { r: 140, g: 180, b: 140 });
    assert_eq!(channel_color(1), Rgb { r: 180, g: 140, b: 140 });
    assert_eq!(channel_color(2), Rgb { r: 140, g: 140, b: 180 });
    assert_eq!(channel_color(3), Rgb { r: 180, g: 180, b: 140 });
    assert_eq!(background_color(), Rgb { r: 0, g: 0, b: 0 });
}

#[test]
fn three_frames_draw_three_segments() {
    let mut v = ViewState::new();
    let frames = [[10u8, 0u8], [20, 0], [30, 0]];
    let mut segments = Vec::new();
    for f in frames.iter() {
        let s = parse_buffer_data(f);
        segments.push(v.on_sample(s).unwrap());
    }
    assert_eq!(segments[0], Segment { from: Point { x: 0, y: 0 }, to: Point { x: 0, y: 174 }, channel: 0 });
    assert_eq!(segments[1], Segment { from: Point { x: 0, y: 174 }, to: Point { x: 2, y: 172 }, channel: 0 });
    assert_eq!(segments[2], Segment { from: Point { x: 2, y: 172 }, to: Point { x: 4, y: 170 }, channel: 0 });
    assert_eq!(v.position, 3);
    assert_eq!(v.last_point, Point { x: 4, y: 170 });
}

#[test]
fn next_channel_restarts_trace() {
    let mut v = ViewState::new();
    v.on_sample(100);
    v.on_sample(200);
    let a = v.on_event(key('n'));
    assert_eq!(a, ViewAction::SetColor { color: Rgb { r: 180, g: 140, b: 140 } });
    assert_eq!(v.channel, 1);
    assert_eq!(v.position, 0);
    assert_eq!(v.last_point, Point { x: 0, y: 0 });
    let s = v.on_sample(0).unwrap();
    assert_eq!(s, Segment { from: Point { x: 0, y: 0 }, to: Point { x: 0, y: 375 }, channel: 1 });
}

#[test]
fn next_channel_wraps_after_last() {
    let mut v = ViewState::new();
    for _ in 0..3 {
        v.on_event(key('n'));
    }
    assert_eq!(v.channel, 3);
    let a = v.on_event(key('n'));
    assert_eq!(v.channel, 0);
    assert_eq!(a, ViewAction::SetColor { color: Rgb { r: 140, g: 180, b: 140 } });
}

#[test]
fn clear_repaints_active_band_only() {
    let mut v = ViewState::new();
    v.on_event(key('n'));
    v.on_event(key('n'));
    v.on_sample(500);
    v.on_sample(501);
    let a = v.on_event(key('c'));
    assert_eq!(
        a,
        ViewAction::ClearBand {
            rect: Rect { x: 0, y: 400, width: 1500, height: 200 },
            background: Rgb { r: 0, g: 0, b: 0 },
        }
    );
    assert_eq!(v.channel, 2);
    assert_eq!(v.position, 0);
    assert_eq!(v.last_point, Point { x: 0, y: 0 });
    assert_eq!(band_rect(0), Rect { x: 0, y: 0, width: 1500, height: 200 });
    assert_eq!(band_rect(3), Rect { x: 0, y: 600, width: 1500, height: 200 });
}

#[test]
fn clear_resets_like_channel_switch() {
    let mut a = ViewState::new();
    let mut b = ViewState::new();
    for s in [5u16, 6, 7] {
        a.on_sample(s);
        b.on_sample(s);
    }
    a.on_event(key('c'));
    b.on_event(key('n'));
    assert_eq!(a.position, b.position);
    assert_eq!(a.last_point, b.last_point);
    assert_eq!(a.channel, 0);
}

#[test]
fn paused_view_discards_samples_and_resumes_where_it_was() {
    let mut v = ViewState::new();
    v.on_sample(10);
    v.on_sample(20);
    let before = v;
    assert_eq!(v.on_event(key('s')), ViewAction::Nothing);
    assert!(v.detached);
    for s in 0..500u16 {
        assert_eq!(v.on_sample(s), None);
    }
    assert_eq!(v.position, before.position);
    assert_eq!(v.last_point, before.last_point);
    v.on_event(key('r'));
    assert_eq!(v, before);
    let s = v.on_sample(30).unwrap();
    assert_eq!(s, Segment { from: Point { x: 2, y: 172 }, to: Point { x: 4, y: 170 }, channel: 0 });
}

#[test]
fn other_events_change_nothing() {
    let mut v = ViewState::new();
    v.on_sample(40);
    let before = v;
    assert_eq!(v.on_event(InputEvent::Other), ViewAction::Nothing);
    assert_eq!(v.on_event(key('q')), ViewAction::Nothing);
    assert_eq!(v, before);
}

#[test]
fn quit_asks_for_shutdown() {
    let mut v = ViewState::new();
    assert_eq!(v.on_event(InputEvent::Quit), ViewAction::Shutdown);
}

#[test]
fn position_limit_is_reported() {
    let mut v = ViewState::new();
    assert!(v.can_draw());
    v.position = duraplot::view::MAX_POSITION;
    assert!(!v.can_draw());
    v.detached = true;
    assert!(v.can_draw());
}
