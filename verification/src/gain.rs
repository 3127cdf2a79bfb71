//! Mapping of user-interface levels to the gains applied inside the graph.
//!
//! A level is an integer in thousandths of a user-interface unit, so the
//! brightness range 0 to 200 is 0 to `200_000` and the volume range 0 to 100
//! is 0 to `100_000`. A gain is an integer in millionths. With these scales
//! `gain = v / 100 - 1` becomes `10 * level - 1_000_000` and `gain = v / 100`
//! becomes `10 * level`, both exact.

use vstd::prelude::*;

verus! {

/// Thousandths in one user-interface unit.
pub const LEVEL_SCALE: u32 = 1_000;

/// Millionths in a gain of one.
pub const GAIN_SCALE: i64 = 1_000_000;

/// The largest brightness level of the user interface, 200.
pub const MAX_BRIGHTNESS: u32 = 200_000;

/// The largest volume level of the user interface, 100.
pub const MAX_VOLUME: u32 = 100_000;

/// The brightness gain of a level: `level / 100 - 1`, in millionths.
pub open spec fn brightness_gain_of(level: u32) -> int {
    10 * (level as int) - 1_000_000
}

/// The volume gain of a level: `level / 100`, in millionths.
pub open spec fn volume_gain_of(level: u32) -> int {
    10 * (level as int)
}

/// The gain a brightness node gets for a level.
pub fn brightness_gain(level: u32) -> (gain: i64)
    ensures
        gain == brightness_gain_of(level),
{
    let wide: i64 = level as i64;
    10 * wide - GAIN_SCALE
}

/// The gain a volume node gets for a level.
pub fn volume_gain(level: u32) -> (gain: i64)
    ensures
        gain == volume_gain_of(level),
{
    let wide: i64 = level as i64;
    10 * wide
}

/// For a level `v` in thousandths and the gain `g` in millionths of it,
/// `g / 1_000_000 = (v / 1_000) / 100 - 1` holds exactly (stated with both
/// sides multiplied by `100_000_000_000`); on the brightness
/// range the gain lies between minus one and one, it is zero at 100, minus
/// one at 0 and one at 200.
pub proof fn brightness_gain_law(level: u32)
    requires
        level <= MAX_BRIGHTNESS,
    ensures
        100_000 * brightness_gain_of(level) == 1_000_000 * level - 100_000_000_000,
        -GAIN_SCALE <= brightness_gain_of(level) <= GAIN_SCALE,
        brightness_gain_of(100_000) == 0,
        brightness_gain_of(0) == -GAIN_SCALE,
        brightness_gain_of(200_000) == GAIN_SCALE,
{
}

/// A brighter level never gets a smaller gain, and different levels get
/// different gains.
pub proof fn brightness_gain_monotonic(a: u32, b: u32)
    ensures
        a <= b <==> brightness_gain_of(a) <= brightness_gain_of(b),
        a == b <==> brightness_gain_of(a) == brightness_gain_of(b),
{
}

/// For a level `v` in thousandths and the gain `g` in millionths of it,
/// `g / 1_000_000 = (v / 1_000) / 100` holds exactly (stated with both sides
/// multiplied by `100_000_000_000`); on the volume range the
/// gain lies between zero and one, it is zero at 0 and one at 100.
pub proof fn volume_gain_law(level: u32)
    requires
        level <= MAX_VOLUME,
    ensures
        100_000 * volume_gain_of(level) == 1_000_000 * level,
        0 <= volume_gain_of(level) <= GAIN_SCALE,
        volume_gain_of(0) == 0,
        volume_gain_of(100_000) == GAIN_SCALE,
{
}

/// A louder level never gets a smaller gain.
pub proof fn volume_gain_monotonic(a: u32, b: u32)
    ensures
        a <= b <==> volume_gain_of(a) <= volume_gain_of(b),
        a < b <==> volume_gain_of(a) < volume_gain_of(b),
{
}

} // verus!
