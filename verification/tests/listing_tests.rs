use remote_control::errors::Error;
use remote_control::listing::parse_device_listing;
use remote_control::media::Device;
use remote_control::media::DeviceKind;
use remote_control::media::Media;

const HEADER: &str = "Name,Type,Direction,Device Name,Default,Direction 2,Default Multimedia,Device State";

fn row(name: &str, typ: &str, dir: &str, role: &str, state: &str) -> String {
    format!("{name},{typ},{dir},x,y,{role},z,{state}")
}

fn listing(rows: &[String]) -> String {
    let mut s = String::from(HEADER);
    for r in rows {
        s.push('\n');
        s.push_str(r);
    }
    s.push('\n');
    s
}

#[test]
fn enumeration_classifies_kinds_and_active_state() {
    let text = listing(&[
        row("Speakers", "Device", "Render", "Render", "Active"),
        row("Headset", "Device", "Render", "Render", "Disabled"),
        row("Mic", "Device", "Capture", "Capture", "Active"),
        row("Part", "Application", "Render", "Render", "Active"),
        row("Odd", "Device", "Sideways", "Render", "Active"),
    ]);
    let (active, devices) = parse_device_listing(&text, false).unwrap();
    assert_eq!(
        devices,
        vec![
            Device { name: "Speakers".to_owned(), kind: DeviceKind::Audio, is_active: true },
            Device { name: "Headset".to_owned(), kind: DeviceKind::Audio, is_active: false },
            Device { name: "Mic".to_owned(), kind: DeviceKind::Micro, is_active: true },
        ]
    );
    assert_eq!(
        active,
        Some(Device { name: "Speakers".to_owned(), kind: DeviceKind::Audio, is_active: true })
    );
}

#[test]
fn active_needs_both_state_and_role_columns() {
    let text = listing(&[
        row("A", "Device", "Render", "Nothing", "Active"),
        row("B", "Device", "Render", "Render", "Inactive"),
    ]);
    let (active, devices) = parse_device_listing(&text, false).unwrap();
    assert!(active.is_none());
    assert!(devices.iter().all(|d| !d.is_active));
}

#[test]
fn empty_names_are_dropped() {
    let text = listing(&[
        row("", "Device", "Render", "Render", "Active"),
        row("Real", "Device", "Render", "Render", "Active"),
    ]);
    let (_, devices) = parse_device_listing(&text, false).unwrap();
    assert_eq!(devices.len(), 1);
    assert_eq!(devices[0].name, "Real");
}

#[test]
fn filter_hides_the_mixers_non_microphone_channels() {
    let text = listing(&[
        row("SteelSeries Sonar - Gaming", "Device", "Render", "Render", "Active"),
        row("SteelSeries Sonar - Microphone", "Device", "Capture", "Capture", "Active"),
        row("Speakers", "Device", "Render", "Render", "Disabled"),
    ]);
    let (_, unfiltered) = parse_device_listing(&text, false).unwrap();
    assert_eq!(unfiltered.len(), 3);
    let (active, filtered) = parse_device_listing(&text, true).unwrap();
    assert_eq!(filtered.len(), 2);
    assert!(filtered.iter().all(|d| d.name != "SteelSeries Sonar - Gaming"));
    assert!(active.is_none());
}

#[test]
fn enumeration_with_zero_devices_is_an_error() {
    let only_header = listing(&[]);
    assert_eq!(parse_device_listing(&only_header, false), Err(Error::FoundNoDevices));
    let no_device_rows = listing(&[row("App", "Application", "Render", "Render", "Active")]);
    assert_eq!(parse_device_listing(&no_device_rows, false), Err(Error::FoundNoDevices));
}

#[test]
fn bom_and_malformed_row_do_not_change_the_device_set() {
    let clean = listing(&[
        row("Speakers", "Device", "Render", "Render", "Active"),
        row("Mic", "Device", "Capture", "Capture", "Active"),
    ]);
    let with_bom_and_bad_row = format!(
        "\u{feff}{}",
        listing(&[
            row("Speakers", "Device", "Render", "Render", "Active"),
            "only,two".to_owned(),
            row("Mic", "Device", "Capture", "Capture", "Active"),
        ])
    );
    let clean_result = parse_device_listing(&clean, false).unwrap();
    let messy_result = parse_device_listing(&with_bom_and_bad_row, false).unwrap();
    assert_eq!(clean_result, messy_result);
}

#[test]
fn update_devices_info_replaces_the_cache() {
    let mut m = Media::new(false);
    let text = listing(&[
        row("Speakers", "Device", "Render", "Render", "Active"),
        row("Mic", "Device", "Capture", "Capture", "Active"),
    ]);
    assert_eq!(m.update_devices_info(&text), Ok(()));
    assert_eq!(m.get_devices().len(), 2);
    assert_eq!(m.get_active().unwrap().name, "Speakers");
    // a listing with no devices is rejected and leaves the cache alone:
    assert_eq!(m.update_devices_info(HEADER), Err(Error::FoundNoDevices));
    assert_eq!(m.get_devices().len(), 2);
}
