//! Volume arithmetic on device-native channel levels.
//!
//! The daemon stores a volume per channel in an opaque native integer
//! unit. The tool exposes volumes only as percentages, through a linear
//! conversion anchored at two device-model reference levels: `MUTED_REF`
//! (0%) and `NORMAL_REF` (100%). Percentages are carried as fixed-point
//! integers in thousandths of a percent, so every step of the arithmetic
//! is exact until the one final truncation back to the native unit.
//!
//! The conversion formulas below spell the anchors out as the literals
//! `0x1_0000` (the native span, `NORMAL_REF - MUTED_REF`) and `100_000`
//! (100% in fixed-point units, `100 * PERCENT_UNIT`), which keeps every
//! product and quotient linear for the solver.

use vstd::prelude::*;
use vstd::arithmetic::div_mod::lemma_div_is_ordered;
use vstd::arithmetic::div_mod::lemma_fundamental_div_mod;
use vstd::arithmetic::div_mod::lemma_fundamental_div_mod_converse_div;

verus! {

/// Thousandths of a percent per percent: the fixed-point scale of every
/// percentage value the library handles.
pub const PERCENT_UNIT: i64 = 1000;

/// 100%, in fixed-point percentage units.
pub const FULL_SCALE: i64 = 100 * PERCENT_UNIT;

/// The ceiling every percentage is clamped to (125%), in fixed-point
/// percentage units.
pub const MAX_PERCENT: i64 = 125 * PERCENT_UNIT;

/// The device-native level that means 0%.
pub const MUTED_REF: u32 = 0;

/// The device-native level that means 100%.
pub const NORMAL_REF: u32 = 0x1_0000;

/// The device-native level that means 125%, the loudest level the tool
/// ever writes back: the native image of [`MAX_PERCENT`].
pub const NATIVE_TOP: u32 = 0x1_4000;

/// `x` forced into `[lo, hi]`.
pub open spec fn clamp(x: int, lo: int, hi: int) -> int {
    if x < lo {
        lo
    } else if x > hi {
        hi
    } else {
        x
    }
}

/// The exact fixed-point percentage a native level stands for, rounded
/// down to the fixed-point grid:
/// `(native - MUTED_REF) * 100% / (NORMAL_REF - MUTED_REF)`.
pub open spec fn percentage_of(native: u32) -> int {
    ((native - MUTED_REF) * 100_000) / 0x1_0000
}

/// The native level a fixed-point percentage stands for, rounded down
/// to the native grid: the algebraic reflection of [`percentage_of`].
pub open spec fn native_of(milli: int) -> int {
    MUTED_REF + (milli * 0x1_0000) / 100_000
}

/// The named constants agree with the conversion: the top of the
/// writable native range is exactly the native image of 125%, and the
/// two reference levels are the exact images of 0% and 100%.
pub proof fn lemma_reference_anchors()
    ensures
        NATIVE_TOP == native_of(MAX_PERCENT as int),
        percentage_of(NATIVE_TOP) == MAX_PERCENT,
        percentage_of(MUTED_REF) == 0,
        percentage_of(NORMAL_REF) == FULL_SCALE,
        NORMAL_REF == native_of(FULL_SCALE as int),
{
}

/// Convert a device-native level to a fixed-point percentage.
pub fn volume_to_percentage(volume: u32) -> (milli: i64)
    ensures
        milli == percentage_of(volume),
        0 <= milli,
{
    let wide: u64 = (volume - MUTED_REF) as u64 * 100_000;
    (wide / 0x1_0000) as i64
}

/// Convert a fixed-point percentage back to a device-native level,
/// saturating at the ends of the native type exactly as the final
/// truncating write does.
pub fn percentage_to_volume(milli: i64) -> (volume: u32)
    ensures
        volume == clamp(native_of(milli as int), 0, u32::MAX as int),
{
    if milli < 0 {
        proof {
            assert(milli * 0x1_0000 <= -0x1_0000);
            lemma_div_is_ordered(milli * 0x1_0000, -0x1_0000, 100_000);
        }
        0u32
    } else {
        let wide: u128 = (milli as u128) * 0x1_0000;
        let native: u128 = (MUTED_REF as u128) + wide / 100_000;
        if native > u32::MAX as u128 {
            u32::MAX
        } else {
            native as u32
        }
    }
}

/// One device's volume state: a level per channel plus the mute flag.
pub struct Volumes {
    /// Is the device muted?
    pub muted: bool,
    /// The native volume level of each channel of the device.
    pub channels: Vec<u32>,
}

/// The closed set of actions the tool can apply to a device. Percentage
/// parameters are in fixed-point units of [`PERCENT_UNIT`] per percent.
#[derive(Clone, Copy, PartialEq, Eq, Structural, Debug)]
pub enum VolumeCommand {
    /// Raise every channel by the given percentage.
    Up { value: i64 },
    /// Lower every channel by the given percentage.
    Down { value: i64 },
    /// Set every channel to the given percentage.
    SetTo { value: i64 },
    /// Toggle between muted and unmuted.
    ToggleMute,
    /// Mute the device.
    Mute,
    /// Unmute the device.
    Unmute,
}

/// What a command does to the mute flag: the three mute actions set it,
/// the level actions leave it alone.
pub open spec fn spec_apply_muted(command: VolumeCommand, muted: bool) -> bool {
    match command {
        VolumeCommand::Mute => true,
        VolumeCommand::Unmute => false,
        VolumeCommand::ToggleMute => !muted,
        _ => muted,
    }
}

/// What a command does to one channel's native level.
///
/// The level actions work in exact percentage space — `clamp(old% ± x,
/// 0%, 125%)` or `clamp(x, 0%, 125%)` — and truncate to the native grid
/// only at the end. Because a native level converts to percentage space
/// and back without loss, that is the same as adding the rounded-down
/// native equivalent of `x` and clamping to the native images of 0% and
/// 125%, which is the form written here.
pub open spec fn spec_apply_channel(command: VolumeCommand, native: u32) -> int {
    match command {
        VolumeCommand::Up { value } => clamp(
            native + (value * 0x1_0000) / 100_000,
            MUTED_REF as int,
            NATIVE_TOP as int,
        ),
        VolumeCommand::Down { value } => clamp(
            native + ((-value) * 0x1_0000) / 100_000,
            MUTED_REF as int,
            NATIVE_TOP as int,
        ),
        VolumeCommand::SetTo { value } => native_of(clamp(value as int, 0, MAX_PERCENT as int)),
        _ => native as int,
    }
}

/// The native-unit change a signed fixed-point percentage step stands
/// for, rounded down (so a negative step's magnitude rounds up).
fn native_delta(value: i64) -> (delta: i64)
    ensures
        delta == (value * 0x1_0000) / 100_000,
{
    if value >= 0 {
        let wide: u128 = (value as u128) * 0x1_0000;
        (wide / 100_000) as i64
    } else {
        let magnitude: u128 = (-(value as i128)) as u128;
        let wide: u128 = magnitude * 0x1_0000;
        let up: u128 = (wide + 99_999) / 100_000;
        proof {
            lemma_neg_div_is_neg_ceil(wide as int, 100_000);
            lemma_div_is_ordered(
                wide + 99_999,
                0x8000_0000_0000_0000_0000int + 99_999,
                100_000,
            );
        }
        -(up as i64)
    }
}

/// Euclidean division of a negated non-negative numerator rounds the
/// magnitude of the quotient up: `(-a) / d == -((a + d - 1) / d)`.
proof fn lemma_neg_div_is_neg_ceil(a: int, d: int)
    requires
        a >= 0,
        d > 0,
    ensures
        (-a) / d == -((a + d - 1) / d),
{
    let c = (a + d - 1) / d;
    let r = (a + d - 1) % d;
    lemma_fundamental_div_mod(a + d - 1, d);
    assert(0 <= d * c - a < d) by (nonlinear_arith)
        requires
            a + d - 1 == d * c + r,
            0 <= r < d,
    ;
    assert(-a == (-c) * d + (d * c - a)) by (nonlinear_arith);
    lemma_fundamental_div_mod_converse_div(-a, d, -c, d * c - a);
}

/// Apply a level step to one channel: shift by the exact native
/// equivalent of the percentage step, then clamp to the writable range.
fn shift_channel(native: u32, delta: i64) -> (level: u32)
    ensures
        level == clamp(native + delta, MUTED_REF as int, NATIVE_TOP as int),
{
    let shifted: i128 = native as i128 + delta as i128;
    if shifted < MUTED_REF as i128 {
        MUTED_REF
    } else if shifted > NATIVE_TOP as i128 {
        NATIVE_TOP
    } else {
        shifted as u32
    }
}

/// Apply a command to one channel's native level.
fn apply_channel(command: &VolumeCommand, native: u32) -> (level: u32)
    ensures
        level == spec_apply_channel(*command, native),
{
    match command {
        VolumeCommand::Up { value } => shift_channel(native, native_delta(*value)),
        VolumeCommand::Down { value } => {
            let value = *value;
            let step: i64 = if value == i64::MIN {
                i64::MAX
            } else {
                -value
            };
            proof {
                if value == i64::MIN {
                    lemma_min_step_saturates(native as int);
                }
            }
            shift_channel(native, native_delta(step))
        },
        VolumeCommand::SetTo { value } => {
            let clamped: i64 = if *value < 0 {
                0
            } else if *value > MAX_PERCENT {
                MAX_PERCENT
            } else {
                *value
            };
            let wide: u64 = (clamped as u64) * 0x1_0000;
            MUTED_REF + (wide / 100_000) as u32
        },
        _ => native,
    }
}

/// Lowering by `i64::MIN` percent is a raise whose exact step cannot be
/// negated within `i64`; both that step and `i64::MAX` already clear
/// the clamp ceiling, so the clamped result is the ceiling either way.
proof fn lemma_min_step_saturates(native: int)
    requires
        0 <= native,
    ensures
        clamp(
            native + ((-(i64::MIN as int)) * 0x1_0000) / 100_000,
            MUTED_REF as int,
            NATIVE_TOP as int,
        ) == clamp(
            native + ((i64::MAX as int) * 0x1_0000) / 100_000,
            MUTED_REF as int,
            NATIVE_TOP as int,
        ),
{
    assert(((-(i64::MIN as int)) * 0x1_0000) / 100_000 >= NATIVE_TOP as int);
    assert(((i64::MAX as int) * 0x1_0000) / 100_000 >= NATIVE_TOP as int);
}

/// Apply a command to a device's whole volume state: every channel
/// independently, and the mute flag.
pub fn apply_volume_command(volumes: &mut Volumes, command: &VolumeCommand)
    ensures
        final(volumes).muted == spec_apply_muted(*command, old(volumes).muted),
        final(volumes).channels@.len() == old(volumes).channels@.len(),
        forall|i: int|
            0 <= i < old(volumes).channels@.len() ==> final(volumes).channels@[i]
                == spec_apply_channel(*command, old(volumes).channels@[i]),
{
    match command {
        VolumeCommand::Mute => {
            volumes.muted = true;
        },
        VolumeCommand::Unmute => {
            volumes.muted = false;
        },
        VolumeCommand::ToggleMute => {
            volumes.muted = !volumes.muted;
        },
        _ => {
            map_volumes(&mut volumes.channels, command);
        },
    }
}

/// Apply a command's channel action to every channel of a device.
fn map_volumes(channels: &mut Vec<u32>, command: &VolumeCommand)
    ensures
        final(channels)@.len() == old(channels)@.len(),
        forall|i: int|
            0 <= i < old(channels)@.len() ==> final(channels)@[i] == spec_apply_channel(
                *command,
                old(channels)@[i],
            ),
{
    let end: usize = channels.len();
    let mut index: usize = 0;
    while index < end
        invariant
            end == old(channels)@.len(),
            index <= end,
            channels@.len() == end,
            forall|i: int| index <= i < end ==> channels@[i] == old(channels)@[i],
            forall|i: int|
                0 <= i < index ==> channels@[i] == spec_apply_channel(
                    *command,
                    old(channels)@[i],
                ),
        decreases end - index,
    {
        let level = apply_channel(command, channels[index]);
        channels.set(index, level);
        index = index + 1;
    }
}

/// Converting a native level to a percentage and back loses at most one
/// native unit, always downward, and never leaves the native range — no
/// saturation can occur on the way back.
pub proof fn lemma_percentage_round_trip(volume: u32)
    ensures
        volume - 1 <= native_of(percentage_of(volume)) <= volume,
        clamp(native_of(percentage_of(volume)), 0, u32::MAX as int) == native_of(
            percentage_of(volume),
        ),
{
    let p = percentage_of(volume);
    lemma_fundamental_div_mod((volume - MUTED_REF) * 100_000, 0x1_0000);
    lemma_fundamental_div_mod(p * 0x1_0000, 100_000);
}

/// Setting to a percentage outside `[0%, 125%]` stores a level whose
/// percentage is exactly 0% or exactly 125%, never anything out of
/// range.
pub proof fn lemma_set_out_of_range_clamps(value: i64, native: u32)
    requires
        value < 0 || value > MAX_PERCENT,
    ensures
        value < 0 ==> spec_apply_channel(VolumeCommand::SetTo { value }, native)
            == MUTED_REF as int,
        value > MAX_PERCENT ==> spec_apply_channel(VolumeCommand::SetTo { value }, native)
            == NATIVE_TOP as int,
        percentage_of(MUTED_REF) == 0,
        percentage_of(NATIVE_TOP) == MAX_PERCENT,
{
}

/// Every level-changing command leaves a channel inside the writable
/// native range — a level outside the images of 0% and 125% is never
/// written back to the daemon — and every mute command leaves the
/// levels untouched.
pub proof fn lemma_written_levels_stay_in_range(command: VolumeCommand, native: u32)
    ensures
        (command matches VolumeCommand::Up { .. } || command matches VolumeCommand::Down { .. }
            || command matches VolumeCommand::SetTo { .. }) ==> MUTED_REF
            <= spec_apply_channel(command, native) <= NATIVE_TOP,
        (command matches VolumeCommand::Mute || command matches VolumeCommand::Unmute
            || command matches VolumeCommand::ToggleMute) ==> spec_apply_channel(command, native)
            == native,
{
    match command {
        VolumeCommand::SetTo { value } => {
            let clamped = clamp(value as int, 0, MAX_PERCENT as int);
            lemma_div_is_ordered(0, clamped * 0x1_0000, 100_000);
            lemma_div_is_ordered(clamped * 0x1_0000, 8_192_000_000, 100_000);
        },
        _ => {},
    }
}

/// Toggling mute twice returns the mute flag to its original value and
/// never touches a channel level.
pub proof fn lemma_toggle_mute_twice(muted: bool, native: u32)
    ensures
        spec_apply_muted(VolumeCommand::ToggleMute, spec_apply_muted(VolumeCommand::ToggleMute, muted))
            == muted,
        spec_apply_channel(VolumeCommand::ToggleMute, native) == native,
{
}

} // verus!
