//! Notification rendering: the summary line, the icon name and the
//! numeric level hint that describe a device's state after a command.
//!
//! Everything here is pure computation on the library's own volume
//! model; handing the rendered content to the desktop's notification
//! service is the binary's job.

use vstd::prelude::*;
use vstd::string::StringExecFns;
use crate::volume::MUTED_REF;
use crate::volume::Volumes;

verus! {

/// Which of the two device classes a notification describes. Each class
/// keeps its own fixed notification identity, so a new notification
/// replaces the previous one of the same class instead of stacking.
#[derive(Clone, Copy, PartialEq, Eq, Structural, Debug)]
pub enum DeviceClass {
    /// The default output device (speakers, headphones, ...).
    Output,
    /// The default input device (microphone, ...).
    Input,
}

/// The icon families for the two device classes.
pub open spec fn spec_icon_prefix(device: DeviceClass) -> Seq<char> {
    match device {
        DeviceClass::Output => "audio-volume"@,
        DeviceClass::Input => "microphone-sensitivity"@,
    }
}

/// The human-readable names of the two device classes.
pub open spec fn spec_device_label(device: DeviceClass) -> Seq<char> {
    match device {
        DeviceClass::Output => "Volume"@,
        DeviceClass::Input => "Microphone"@,
    }
}

/// The fixed notification identity of each device class.
pub open spec fn spec_notification_id(device: DeviceClass) -> u32 {
    match device {
        DeviceClass::Output => 0x49ad_ff07,
        DeviceClass::Input => 0x49ad_ff08,
    }
}

/// Fetch the fixed notification identity of a device class.
pub fn notification_id(device: &DeviceClass) -> (id: u32)
    ensures
        id == spec_notification_id(*device),
{
    match device {
        DeviceClass::Output => 0x49ad_ff07,
        DeviceClass::Input => 0x49ad_ff08,
    }
}

/// The two device classes never share a notification identity, so one
/// class's notification can never replace the other's.
pub proof fn lemma_notification_ids_distinct()
    ensures
        spec_notification_id(DeviceClass::Output) != spec_notification_id(DeviceClass::Input),
{
}

/// The icon variant chosen for a device state.
#[derive(Clone, Copy, PartialEq, Eq, Structural, Debug)]
pub enum IconLevel {
    /// The device is muted, whatever its level.
    Muted,
    /// At most one third of full scale.
    Low,
    /// Above one third and below two thirds of full scale.
    Medium,
    /// At two thirds of full scale or above.
    High,
}

/// Which icon variant a state selects. A muted device always gets the
/// muted icon. Otherwise the loudest channel's exact percentage decides:
/// at or below 33 1/3 % the low icon (the bound itself is low), strictly
/// below 66 2/3 % the medium icon, else the high icon. Comparing
/// `3 * (native - MUTED_REF)` against one and two native spans is those
/// exact fractional comparisons, free of any rounding.
pub open spec fn spec_icon_level(muted: bool, loudest: u32) -> IconLevel {
    if muted {
        IconLevel::Muted
    } else if 3 * (loudest - MUTED_REF) <= 0x1_0000 {
        IconLevel::Low
    } else if 3 * (loudest - MUTED_REF) < 0x2_0000 {
        IconLevel::Medium
    } else {
        IconLevel::High
    }
}

/// Select the icon variant for a device state; `loudest` is the highest
/// native channel level.
pub fn icon_level(muted: bool, loudest: u32) -> (level: IconLevel)
    ensures
        level == spec_icon_level(muted, loudest),
{
    if muted {
        IconLevel::Muted
    } else {
        let scaled: u64 = 3 * ((loudest - MUTED_REF) as u64);
        if scaled <= 0x1_0000 {
            IconLevel::Low
        } else if scaled < 0x2_0000 {
            IconLevel::Medium
        } else {
            IconLevel::High
        }
    }
}

/// The suffix each icon variant appends to the device's icon family.
pub open spec fn spec_icon_suffix(level: IconLevel) -> Seq<char> {
    match level {
        IconLevel::Muted => "-muted"@,
        IconLevel::Low => "-low"@,
        IconLevel::Medium => "-medium"@,
        IconLevel::High => "-high"@,
    }
}

/// The full icon name for a device state: the class's icon family plus
/// the variant suffix.
pub open spec fn spec_icon_name(device: DeviceClass, muted: bool, loudest: u32) -> Seq<char> {
    spec_icon_prefix(device) + spec_icon_suffix(spec_icon_level(muted, loudest))
}

/// Render the full icon name for a device state.
pub fn icon_name(device: &DeviceClass, muted: bool, loudest: u32) -> (name: String)
    ensures
        name@ == spec_icon_name(*device, muted, loudest),
{
    let prefix: &str = match device {
        DeviceClass::Output => "audio-volume",
        DeviceClass::Input => "microphone-sensitivity",
    };
    let mut name = String::from_str(prefix);
    match icon_level(muted, loudest) {
        IconLevel::Muted => name.append("-muted"),
        IconLevel::Low => name.append("-low"),
        IconLevel::Medium => name.append("-medium"),
        IconLevel::High => name.append("-high"),
    }
    name
}

/// The loudest channel's native level; a device without channels counts
/// as fully muted.
pub open spec fn spec_max_channel(levels: Seq<u32>) -> u32
    decreases levels.len(),
{
    if levels.len() == 0 {
        MUTED_REF
    } else {
        let rest = spec_max_channel(levels.drop_last());
        if levels.last() > rest {
            levels.last()
        } else {
            rest
        }
    }
}

/// [`spec_max_channel`] really is the loudest level: nothing in the
/// sequence is above it, and unless the sequence is empty it occurs in
/// the sequence.
pub proof fn lemma_max_channel_bounds(levels: Seq<u32>)
    ensures
        forall|i: int| 0 <= i < levels.len() ==> levels[i] <= spec_max_channel(levels),
        levels.len() > 0 ==> exists|i: int|
            0 <= i < levels.len() && levels[i] == spec_max_channel(levels),
    decreases levels.len(),
{
    if levels.len() > 0 {
        let rest = levels.drop_last();
        lemma_max_channel_bounds(rest);
        let loudest = spec_max_channel(levels);
        assert forall|i: int| 0 <= i < levels.len() implies levels[i] <= loudest by {
            if i < levels.len() - 1 {
                assert(rest[i] == levels[i]);
                assert(rest[i] <= spec_max_channel(rest));
            }
        }
        if levels.last() > spec_max_channel(rest) {
            assert(levels[levels.len() - 1] == loudest);
        } else if rest.len() > 0 {
            let j = choose|j: int|
                0 <= j < rest.len() && rest[j] == spec_max_channel(rest);
            assert(levels[j] == loudest);
        } else {
            assert(levels[0] == loudest);
        }
    }
}

/// Find the loudest channel's native level.
pub fn max_channel(channels: &Vec<u32>) -> (loudest: u32)
    ensures
        loudest == spec_max_channel(channels@),
{
    let mut loudest: u32 = MUTED_REF;
    let mut index: usize = 0;
    while index < channels.len()
        invariant
            index <= channels@.len(),
            loudest == spec_max_channel(channels@.take(index as int)),
        decreases channels@.len() - index,
    {
        let level = channels[index];
        proof {
            assert(channels@.take(index as int + 1).drop_last() =~= channels@.take(index as int));
            assert(channels@.take(index as int + 1).last() == channels@[index as int]);
        }
        if level > loudest {
            loudest = level;
        }
        index = index + 1;
    }
    proof {
        assert(channels@.take(channels@.len() as int) =~= channels@);
    }
    loudest
}

/// The loudest channel's percentage rounded to a whole number of
/// percent, halves away from zero: the level hint shown by the
/// notification. Scaling by 200 and adding one native span before the
/// division is exactly `floor(percentage + 1/2)`.
pub open spec fn spec_rounded_percent(loudest: u32) -> int {
    ((loudest - MUTED_REF) * 200 + 0x1_0000) / 0x2_0000
}

/// Round the loudest channel's percentage to a whole number of percent.
pub fn rounded_percent(loudest: u32) -> (percent: u32)
    ensures
        percent == spec_rounded_percent(loudest),
{
    let wide: u64 = ((loudest - MUTED_REF) as u64) * 200 + 0x1_0000;
    (wide / 0x2_0000) as u32
}

/// The decimal digit characters.
pub open spec fn spec_digit(digit: int) -> char {
    if digit == 0 {
        '0'
    } else if digit == 1 {
        '1'
    } else if digit == 2 {
        '2'
    } else if digit == 3 {
        '3'
    } else if digit == 4 {
        '4'
    } else if digit == 5 {
        '5'
    } else if digit == 6 {
        '6'
    } else if digit == 7 {
        '7'
    } else if digit == 8 {
        '8'
    } else {
        '9'
    }
}

/// The decimal numeral of a non-negative number, most significant digit
/// first.
pub open spec fn spec_decimal(n: int) -> Seq<char>
    decreases n,
{
    if n < 10 {
        seq![spec_digit(n)]
    } else {
        spec_decimal(n / 10) + seq![spec_digit(n % 10)]
    }
}

/// The one-character numeral of a single decimal digit.
fn digit_str(digit: u32) -> (s: &'static str)
    requires
        digit < 10,
    ensures
        s@ == seq![spec_digit(digit as int)],
{
    if digit == 0 {
        proof {
            reveal_strlit("0");
            assert("0"@ =~= seq![spec_digit(0)]);
        }
        "0"
    } else if digit == 1 {
        proof {
            reveal_strlit("1");
            assert("1"@ =~= seq![spec_digit(1)]);
        }
        "1"
    } else if digit == 2 {
        proof {
            reveal_strlit("2");
            assert("2"@ =~= seq![spec_digit(2)]);
        }
        "2"
    } else if digit == 3 {
        proof {
            reveal_strlit("3");
            assert("3"@ =~= seq![spec_digit(3)]);
        }
        "3"
    } else if digit == 4 {
        proof {
            reveal_strlit("4");
            assert("4"@ =~= seq![spec_digit(4)]);
        }
        "4"
    } else if digit == 5 {
        proof {
            reveal_strlit("5");
            assert("5"@ =~= seq![spec_digit(5)]);
        }
        "5"
    } else if digit == 6 {
        proof {
            reveal_strlit("6");
            assert("6"@ =~= seq![spec_digit(6)]);
        }
        "6"
    } else if digit == 7 {
        proof {
            reveal_strlit("7");
            assert("7"@ =~= seq![spec_digit(7)]);
        }
        "7"
    } else if digit == 8 {
        proof {
            reveal_strlit("8");
            assert("8"@ =~= seq![spec_digit(8)]);
        }
        "8"
    } else {
        proof {
            reveal_strlit("9");
            assert("9"@ =~= seq![spec_digit(9)]);
        }
        "9"
    }
}

/// Render a number as its decimal numeral.
pub fn decimal_string(n: u32) -> (s: String)
    ensures
        s@ == spec_decimal(n as int),
    decreases n,
{
    if n < 10 {
        String::from_str(digit_str(n))
    } else {
        let mut s = decimal_string(n / 10);
        s.append(digit_str(n % 10));
        s
    }
}

/// The notification's summary line: the device label, then either
/// `muted (<level>%)` or `<level>%`, with the level in whole percent.
pub open spec fn spec_summary(device: DeviceClass, muted: bool, level: int) -> Seq<char> {
    if muted {
        spec_device_label(device) + ": muted ("@ + spec_decimal(level) + "%)"@
    } else {
        spec_device_label(device) + ": "@ + spec_decimal(level) + "%"@
    }
}

/// Render the notification's summary line.
pub fn render_summary(device: &DeviceClass, muted: bool, level: u32) -> (s: String)
    ensures
        s@ == spec_summary(*device, muted, level as int),
{
    let label: &str = match device {
        DeviceClass::Output => "Volume",
        DeviceClass::Input => "Microphone",
    };
    let mut s = String::from_str(label);
    if muted {
        s.append(": muted (");
        let digits = decimal_string(level);
        s.append(digits.as_str());
        s.append("%)");
    } else {
        s.append(": ");
        let digits = decimal_string(level);
        s.append(digits.as_str());
        s.append("%");
    }
    proof {
        assert(s@ =~= spec_summary(*device, muted, level as int));
    }
    s
}

/// Everything the desktop notification for a device state carries: the
/// summary line, the icon name, the class's fixed identity, and the
/// rounded level for a progress hint.
pub struct NotificationContent {
    /// The human-readable summary line.
    pub summary: String,
    /// The icon name, family plus variant suffix.
    pub icon: String,
    /// The fixed notification identity of the device class.
    pub id: u32,
    /// The loudest channel's percentage, rounded to whole percent.
    pub level: u32,
}

/// Render the complete notification content for a device state after a
/// command.
pub fn render_notification(device: &DeviceClass, volumes: &Volumes) -> (note: NotificationContent)
    ensures
        note.summary@ == spec_summary(
            *device,
            volumes.muted,
            spec_rounded_percent(spec_max_channel(volumes.channels@)),
        ),
        note.icon@ == spec_icon_name(*device, volumes.muted, spec_max_channel(volumes.channels@)),
        note.id == spec_notification_id(*device),
        note.level == spec_rounded_percent(spec_max_channel(volumes.channels@)),
{
    let loudest = max_channel(&volumes.channels);
    let level = rounded_percent(loudest);
    NotificationContent {
        summary: render_summary(device, volumes.muted, level),
        icon: icon_name(device, volumes.muted, loudest),
        id: notification_id(device),
        level,
    }
}

} // verus!
