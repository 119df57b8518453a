//! The fixed linear mapping from samples and sequence positions to pixels.
//!
//! The window is split into four lanes stacked top to bottom, each
//! `BAND_HEIGHT` pixels tall. A sample is drawn inside the lane of its
//! channel, higher values higher on screen.
use vstd::prelude::*;

verus! {

/// Number of lanes, one per channel.
pub const CHANNEL_COUNT: usize = 4;

/// Height of one lane in pixels.
pub const BAND_HEIGHT: i32 = 200;

/// Width of the window, and of each lane, in pixels.
pub const WINDOW_WIDTH: u32 = 1500;

/// Height of the window in pixels: all lanes together.
pub const WINDOW_HEIGHT: u32 = 800;

/// Gap kept between the zero level and the bottom of a lane.
pub const BAND_MARGIN: i32 = 25;

/// Samples per pixel of vertical swing: a 10-bit range over about 150
/// pixels, that is 1024 / 150 rounded down.
pub const LEVEL_DIVISOR: i32 = 6;

/// Horizontal pixels per sample.
pub const X_STEP: i32 = 2;

/// Largest sample value that the device sends (a 10-bit converter).
pub const MAX_DEVICE_LEVEL: u16 = 1023;

/// Row of the top edge of the lane of `channel`.
pub open spec fn band_top(channel: int) -> int {
    channel * BAND_HEIGHT
}

/// Whether row `y` lies in the lane of `channel`.
pub open spec fn in_band(y: int, channel: int) -> bool {
    band_top(channel) <= y < band_top(channel) + BAND_HEIGHT
}

/// Row at which a sample of `level` is drawn in the lane of `channel`.
pub open spec fn level_to_y(level: int, channel: int) -> int {
    -(level / (LEVEL_DIVISOR as int) + BAND_MARGIN) + (channel + 1) * BAND_HEIGHT
}

/// Column at which the sample at sequence position `position` is drawn.
pub open spec fn time_to_x(position: int) -> int {
    position * X_STEP
}

/// Maps a sample to its row in the lane of `signal_channel`.
pub fn parse_level_to_y(level: u16, signal_channel: i32) -> (r: i32)
    requires
        0 <= signal_channel < CHANNEL_COUNT,
    ensures
        r as int == level_to_y(level as int, signal_channel as int),
{
    let level = level as i32;
    -(level / LEVEL_DIVISOR + BAND_MARGIN) + (signal_channel + 1) * BAND_HEIGHT
}

/// Maps a sequence position to its column.
pub fn parse_time_to_x(time: i32) -> (r: i32)
    requires
        i32::MIN <= time * X_STEP <= i32::MAX,
    ensures
        r as int == time_to_x(time as int),
{
    time * X_STEP
}

/// Every sample in the device's range is drawn inside its own lane, between
/// 5 and 175 pixels below the lane's top edge, and in no other lane.
pub proof fn lemma_level_stays_in_band(level: int, channel: int)
    requires
        0 <= level <= MAX_DEVICE_LEVEL,
        0 <= channel < CHANNEL_COUNT,
    ensures
        band_top(channel) + 5 <= level_to_y(level, channel) <= band_top(channel) + 175,
        in_band(level_to_y(level, channel), channel),
        forall|other: int|
            other != channel ==> !#[trigger] in_band(level_to_y(level, channel), other),
{
    assert(0 <= level / 6 <= 170);
    assert forall|other: int| other != channel implies !#[trigger] in_band(
        level_to_y(level, channel),
        other,
    ) by {
        let y = level_to_y(level, channel);
        if other < channel {
            assert(band_top(other) + BAND_HEIGHT <= band_top(channel)) by (nonlinear_arith)
                requires
                    other < channel,
            ;
        } else {
            assert(band_top(channel) + BAND_HEIGHT <= band_top(other)) by (nonlinear_arith)
                requires
                    channel < other,
            ;
        }
    }
}

/// Within a lane, a larger sample is never drawn lower than a smaller one.
pub proof fn lemma_level_to_y_monotonic(a: int, b: int, channel: int)
    requires
        0 <= a <= b,
    ensures
        level_to_y(b, channel) <= level_to_y(a, channel),
{
    assert(a / 6 <= b / 6) by (nonlinear_arith)
        requires
            0 <= a <= b,
    ;
}

/// The lanes of two different channels share no row.
pub proof fn lemma_bands_disjoint(a: int, b: int, y: int)
    requires
        a != b,
        in_band(y, a),
    ensures
        !in_band(y, b),
{
    if a < b {
        assert(band_top(a) + BAND_HEIGHT <= band_top(b)) by (nonlinear_arith)
            requires
                a < b,
        ;
    } else {
        assert(band_top(b) + BAND_HEIGHT <= band_top(a)) by (nonlinear_arith)
            requires
                b < a,
        ;
    }
}

/// The first sample is drawn at the left edge, and later samples strictly
/// further right.
pub proof fn lemma_time_to_x_strictly_increasing(a: int, b: int)
    requires
        a < b,
    ensures
        time_to_x(0) == 0,
        time_to_x(a) < time_to_x(b),
        time_to_x(b) == 2 * b,
{
}

} // verus!
