use volume_ctl::volume::apply_volume_command;
use volume_ctl::volume::percentage_to_volume;
use volume_ctl::volume::volume_to_percentage;
use volume_ctl::volume::VolumeCommand;
use volume_ctl::volume::Volumes;
use volume_ctl::volume::MAX_PERCENT;
use volume_ctl::volume::NATIVE_TOP;
use volume_ctl::volume::NORMAL_REF;
use volume_ctl::notification::icon_level;
use volume_ctl::notification::rounded_percent;
use volume_ctl::notification::IconLevel;

#[test]
fn conversion_anchors_are_exact() {
    assert_eq!(volume_to_percentage(0), 0);
    assert_eq!(volume_to_percentage(NORMAL_REF), 100_000);
    assert_eq!(volume_to_percentage(NATIVE_TOP), MAX_PERCENT);
    assert_eq!(percentage_to_volume(0), 0);
    assert_eq!(percentage_to_volume(100_000), NORMAL_REF);
    assert_eq!(percentage_to_volume(MAX_PERCENT), NATIVE_TOP);
}

#[test]
fn conversion_round_trip_is_within_one_native_unit() {
    for &native in &[0u32, 1, 2, 655, 21845, 32768, 65535, 65536, 78643, 81920, 4_000_000] {
        let back = percentage_to_volume(volume_to_percentage(native));
        assert!(back <= native);
        assert!(native - back <= 1);
    }
}

#[test]
fn percentage_to_volume_saturates() {
    assert_eq!(percentage_to_volume(-1), 0);
    assert_eq!(percentage_to_volume(i64::MIN), 0);
    assert_eq!(percentage_to_volume(i64::MAX), u32::MAX);
}

#[test]
fn set_to_out_of_range_clamps_to_exact_bounds() {
    let mut volumes = Volumes { muted: false, channels: vec![30_000, 81_920] };
    apply_volume_command(&mut volumes, &VolumeCommand::SetTo { value: -5_000 });
    assert_eq!(volumes.channels, vec![0, 0]);
    assert_eq!(volume_to_percentage(volumes.channels[0]), 0);

    let mut volumes = Volumes { muted: false, channels: vec![30_000] };
    apply_volume_command(&mut volumes, &VolumeCommand::SetTo { value: 200_000 });
    assert_eq!(volumes.channels, vec![NATIVE_TOP]);
    assert_eq!(volume_to_percentage(volumes.channels[0]), MAX_PERCENT);
}

#[test]
fn set_to_in_range_is_exact() {
    let mut volumes = Volumes { muted: true, channels: vec![1, 2, 3] };
    apply_volume_command(&mut volumes, &VolumeCommand::SetTo { value: 50_000 });
    assert_eq!(volumes.channels, vec![32_768, 32_768, 32_768]);
    assert!(volumes.muted, "a level action must not touch the mute flag");
}

#[test]
fn toggle_mute_twice_restores_the_flag() {
    for &start in &[false, true] {
        let mut volumes = Volumes { muted: start, channels: vec![12_345] };
        apply_volume_command(&mut volumes, &VolumeCommand::ToggleMute);
        assert_eq!(volumes.muted, !start);
        apply_volume_command(&mut volumes, &VolumeCommand::ToggleMute);
        assert_eq!(volumes.muted, start);
        assert_eq!(volumes.channels, vec![12_345]);
    }
}

#[test]
fn mute_and_unmute_set_the_flag() {
    let mut volumes = Volumes { muted: false, channels: vec![32_768] };
    apply_volume_command(&mut volumes, &VolumeCommand::Mute);
    assert!(volumes.muted);
    assert_eq!(volumes.channels, vec![32_768]);
    apply_volume_command(&mut volumes, &VolumeCommand::Unmute);
    assert!(!volumes.muted);
}

#[test]
fn up_ten_from_fifty_percent_on_two_channels() {
    // 50% of the native span is 32768; a 10% step is 6553 native units
    // rounded down; the result sits at (effectively) 60% and selects the
    // medium icon.
    let mut volumes = Volumes { muted: false, channels: vec![32_768, 32_768] };
    apply_volume_command(&mut volumes, &VolumeCommand::Up { value: 10_000 });
    assert_eq!(volumes.channels, vec![39_321, 39_321]);
    assert!(!volumes.muted);
    assert_eq!(rounded_percent(39_321), 60);
    assert_eq!(icon_level(false, 39_321), IconLevel::Medium);
}

#[test]
fn up_ten_from_one_twenty_percent_clamps_at_one_twenty_five() {
    let mut volumes = Volumes { muted: false, channels: vec![percentage_to_volume(120_000)] };
    apply_volume_command(&mut volumes, &VolumeCommand::Up { value: 10_000 });
    assert_eq!(volumes.channels, vec![NATIVE_TOP]);
    assert_eq!(volume_to_percentage(volumes.channels[0]), MAX_PERCENT);
}

#[test]
fn down_below_zero_clamps_at_zero() {
    let mut volumes = Volumes { muted: false, channels: vec![percentage_to_volume(5_000)] };
    apply_volume_command(&mut volumes, &VolumeCommand::Down { value: 10_000 });
    assert_eq!(volumes.channels, vec![0]);
}

#[test]
fn down_is_the_mirror_of_up() {
    let mut volumes = Volumes { muted: false, channels: vec![39_322] };
    apply_volume_command(&mut volumes, &VolumeCommand::Down { value: 10_000 });
    // A 10% step down rounds its native magnitude up: 6554 units.
    assert_eq!(volumes.channels, vec![32_768]);
}

#[test]
fn extreme_steps_saturate() {
    let mut volumes = Volumes { muted: false, channels: vec![32_768] };
    apply_volume_command(&mut volumes, &VolumeCommand::Up { value: i64::MAX });
    assert_eq!(volumes.channels, vec![NATIVE_TOP]);

    let mut volumes = Volumes { muted: false, channels: vec![32_768] };
    apply_volume_command(&mut volumes, &VolumeCommand::Down { value: i64::MAX });
    assert_eq!(volumes.channels, vec![0]);

    let mut volumes = Volumes { muted: false, channels: vec![32_768] };
    apply_volume_command(&mut volumes, &VolumeCommand::Down { value: i64::MIN });
    assert_eq!(volumes.channels, vec![NATIVE_TOP]);
}
