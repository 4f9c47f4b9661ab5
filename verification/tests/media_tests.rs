use remote_control::errors::Error;
use remote_control::media::confirm_switch;
use remote_control::media::mute_from_exit_code;
use remote_control::media::volume_from_exit_code;
use remote_control::media::Device;
use remote_control::media::DeviceKind;
use remote_control::media::Media;

fn device(name: &str, kind: DeviceKind, is_active: bool) -> Device {
    Device { name: name.to_owned(), kind, is_active }
}

fn media_with(devices: Vec<Device>, volume: i32) -> Media {
    let active = devices
        .iter()
        .find(|d| d.is_active && d.kind == DeviceKind::Audio)
        .cloned();
    Media { devices, active, volume, filter_enabled: false }
}

#[test]
fn kind_predicates() {
    assert!(DeviceKind::Audio.is_audio());
    assert!(!DeviceKind::Audio.is_micro());
    assert!(DeviceKind::Micro.is_micro());
    assert!(!DeviceKind::Micro.is_audio());
}

#[test]
fn set_volume_clamps_into_percent_range() {
    let mut m = Media::new(false);
    assert_eq!(m.set_audio_volume(150, true), Ok(100));
    assert_eq!(m.volume, 100);
    assert_eq!(m.set_audio_volume(-5, true), Ok(0));
    assert_eq!(m.volume, 0);
    assert_eq!(m.set_audio_volume(60, true), Ok(60));
    assert_eq!(m.volume, 60);
}

#[test]
fn failed_volume_set_changes_nothing() {
    let mut m = Media::new(false);
    let _ = m.set_audio_volume(60, true);
    assert_eq!(m.set_audio_volume(80, false), Err(Error::FailedSetVolume));
    assert_eq!(m.volume, 60);
}

#[test]
fn increase_clamps_at_one_hundred() {
    let mut m = Media::new(false);
    let _ = m.set_audio_volume(60, true);
    assert_eq!(m.increase_audio_volume(150), 100);
    assert_eq!(m.increase_audio_volume(30), 90);
}

#[test]
fn decrease_saturates_at_zero() {
    let mut m = Media::new(false);
    let _ = m.set_audio_volume(10, true);
    assert_eq!(m.decrease_audio_volume(200), 0);
    assert_eq!(m.decrease_audio_volume(3), 7);
}

#[test]
fn volume_tool_exit_code_is_percent_times_ten() {
    assert_eq!(volume_from_exit_code(730), 73);
    assert_eq!(volume_from_exit_code(0), 0);
    assert_eq!(volume_from_exit_code(1000), 100);
    assert_eq!(volume_from_exit_code(-7), 0);
    assert_eq!(volume_from_exit_code(5000), 100);
    let mut m = Media::new(false);
    m.update_volume_info(420);
    assert_eq!(m.volume, 42);
}

#[test]
fn mute_tool_exit_code_one_means_muted() {
    assert!(mute_from_exit_code(1));
    assert!(!mute_from_exit_code(0));
    assert!(!mute_from_exit_code(2));
}

#[test]
fn sys_volume_scales_percent_into_native_range() {
    assert_eq!(Media::sys_volume_of(100), 65535);
    assert_eq!(Media::sys_volume_of(0), 0);
    assert_eq!(Media::sys_volume_of(50), 32767);
    assert_eq!(Media::sys_volume_of(150), 65535);
}

#[test]
fn cyclic_next_moves_past_the_active_device() {
    let m = media_with(
        vec![
            device("A", DeviceKind::Audio, false),
            device("B", DeviceKind::Audio, true),
            device("C", DeviceKind::Audio, false),
        ],
        50,
    );
    assert_eq!(m.switch_next_audio_device(), Ok("C".to_owned()));
    assert_eq!(m.switch_prev_audio_device(), Ok("A".to_owned()));
}

#[test]
fn cyclic_prev_wraps_from_the_front() {
    let m = media_with(
        vec![
            device("A", DeviceKind::Audio, true),
            device("B", DeviceKind::Audio, false),
            device("C", DeviceKind::Audio, false),
        ],
        50,
    );
    assert_eq!(m.switch_prev_audio_device(), Ok("C".to_owned()));
    assert_eq!(m.switch_next_audio_device(), Ok("B".to_owned()));
}

#[test]
fn cyclic_next_wraps_past_the_end() {
    let m = media_with(
        vec![
            device("A", DeviceKind::Audio, false),
            device("B", DeviceKind::Audio, false),
            device("C", DeviceKind::Audio, true),
        ],
        50,
    );
    assert_eq!(m.switch_next_audio_device(), Ok("A".to_owned()));
}

#[test]
fn cyclic_switching_starts_at_zero_without_an_active_device() {
    let m = media_with(
        vec![
            device("A", DeviceKind::Audio, false),
            device("B", DeviceKind::Audio, false),
        ],
        50,
    );
    assert_eq!(m.switch_next_audio_device(), Ok("B".to_owned()));
    assert_eq!(m.switch_prev_audio_device(), Ok("B".to_owned()));
}

#[test]
fn cyclic_switching_ignores_other_kinds() {
    let m = media_with(
        vec![
            device("Mic", DeviceKind::Micro, true),
            device("A", DeviceKind::Audio, true),
            device("B", DeviceKind::Audio, false),
        ],
        50,
    );
    assert_eq!(m.switch_next_audio_device(), Ok("B".to_owned()));
    assert_eq!(m.switch_next_micro_device(), Ok("Mic".to_owned()));
}

#[test]
fn switching_with_no_devices_is_an_error() {
    let m = Media::new(false);
    assert_eq!(m.switch_next_audio_device(), Err(Error::FoundNoDevices));
    assert_eq!(m.switch_prev_micro_device(), Err(Error::FoundNoDevices));
}

#[test]
fn set_device_by_name_finds_or_reports() {
    let m = media_with(
        vec![
            device("A", DeviceKind::Audio, true),
            device("Mic", DeviceKind::Micro, false),
        ],
        50,
    );
    assert_eq!(m.set_audio_device("A"), Ok(device("A", DeviceKind::Audio, true)));
    assert_eq!(m.set_audio_device("Nope"), Err(Error::DeviceNotFound("Nope".to_owned())));
    // a microphone is not found among the audio devices:
    assert_eq!(m.set_audio_device("Mic"), Err(Error::DeviceNotFound("Mic".to_owned())));
    assert_eq!(m.set_micro_device("Mic"), Ok(device("Mic", DeviceKind::Micro, false)));
}

#[test]
fn confirm_switch_reports_the_tool_outcome() {
    assert_eq!(confirm_switch("A", true), Ok(()));
    assert_eq!(confirm_switch("A", false), Err(Error::FailedSwitchToDevice("A".to_owned())));
}

#[test]
fn active_device_getters() {
    let m = media_with(
        vec![
            device("A", DeviceKind::Audio, false),
            device("B", DeviceKind::Audio, true),
            device("Mic", DeviceKind::Micro, true),
        ],
        50,
    );
    assert_eq!(m.get_active_audio_device(), Ok(device("B", DeviceKind::Audio, true)));
    assert_eq!(m.get_active_micro_device(), Ok(device("Mic", DeviceKind::Micro, true)));
    assert_eq!(m.get_active().unwrap().name, "B");
    assert_eq!(m.get_devices().len(), 3);
    assert_eq!(m.get_audio_devices().len(), 2);
    assert_eq!(m.get_micro_devices().len(), 1);
    assert_eq!(m.switch_audio_mute(), Ok("B".to_owned()));
    assert_eq!(m.switch_micro_mute(), Ok("Mic".to_owned()));
}

#[test]
fn missing_active_device_is_reported() {
    let m = media_with(vec![device("A", DeviceKind::Audio, false)], 50);
    assert_eq!(m.get_active_audio_device(), Err(Error::ActiveDeviceNotFound));
    assert_eq!(m.switch_audio_mute(), Err(Error::ActiveDeviceNotFound));
    assert_eq!(m.switch_micro_mute(), Err(Error::ActiveDeviceNotFound));
    assert_eq!(m.active_audio_name(), Err(Error::ActiveDeviceNotFound));
}
