use soundstoic::audio_manager::AudioError;
use soundstoic::audio_manager::device_id_for_uid;
use soundstoic::audio_manager::device_name_by_id;
use soundstoic::audio_manager::device_name_for_uid;
use soundstoic::audio_manager::device_uid_by_id;
use soundstoic::audio_manager::list_input_devices;
use soundstoic::host::RawDevice;
use soundstoic::sim::SimHost;

fn dev(id: u32, uid: Option<&str>, name: Option<&str>, channels: Option<u32>, streams: bool) -> RawDevice {
    RawDevice {
        id,
        name: name.map(|s| s.to_string()),
        uid: uid.map(|s| s.to_string()),
        input_channels: channels,
        has_input_streams: streams,
    }
}

fn sample_host() -> SimHost {
    SimHost {
        devices: vec![
            // eligible through its channel count
            dev(10, Some("UID-A"), Some("Mic A"), Some(2), true),
            // an output-only device: no input channels, no input streams
            dev(11, Some("UID-OUT"), Some("Speakers"), Some(0), false),
            // channel query failed, but input streams are present
            dev(12, Some("UID-B"), Some("Mic B"), None, true),
            // name and UID queries failed on an otherwise usable device
            dev(13, None, None, Some(1), false),
            // channel query reported zero, but streams are present
            dev(14, Some("UID-C"), Some("Mic C"), Some(0), true),
        ],
        default_input: 10,
        translation_available: true,
    }
}

#[test]
fn listing_filters_and_keeps_order() {
    let host = sample_host();
    let list = list_input_devices(&host).unwrap();
    let ids: Vec<u32> = list.iter().map(|d| d.id).collect();
    assert_eq!(ids, vec![10, 12, 13, 14]);
}

#[test]
fn listing_reports_channels_and_zero_on_failed_query() {
    let host = sample_host();
    let list = list_input_devices(&host).unwrap();
    assert_eq!(list[0].input_channels, 2);
    assert_eq!(list[1].input_channels, 0); // query failed: reported as zero
    assert_eq!(list[2].input_channels, 1);
    assert_eq!(list[3].input_channels, 0);
}

#[test]
fn listing_fills_placeholders_for_failed_lookups() {
    let host = sample_host();
    let list = list_input_devices(&host).unwrap();
    assert_eq!(list[0].name, "Mic A");
    assert_eq!(list[0].uid, "UID-A");
    assert_eq!(list[2].name, "<unknown>");
    assert_eq!(list[2].uid, "<no-uid>");
}

#[test]
fn resolution_uses_translation_when_available() {
    let host = sample_host();
    assert_eq!(device_id_for_uid(&host, "UID-A").unwrap(), 10);
    // the translation facility also knows devices the input listing drops
    assert_eq!(device_id_for_uid(&host, "UID-OUT").unwrap(), 11);
}

#[test]
fn resolution_falls_back_to_enumeration() {
    let mut host = sample_host();
    host.translation_available = false;
    assert_eq!(device_id_for_uid(&host, "UID-B").unwrap(), 12);
    // without translation, only eligible input devices can be found
    assert!(matches!(
        device_id_for_uid(&host, "UID-OUT"),
        Err(AudioError::NotFound)
    ));
}

#[test]
fn resolution_reports_not_found_for_absent_uid() {
    let host = sample_host();
    assert!(matches!(
        device_id_for_uid(&host, "UID-GONE"),
        Err(AudioError::NotFound)
    ));
}

#[test]
fn name_and_uid_by_id() {
    let host = sample_host();
    assert_eq!(device_name_by_id(&host, 12).unwrap(), "Mic B");
    assert_eq!(device_uid_by_id(&host, 12).unwrap(), "UID-B");
    // the device exists but its metadata queries had failed
    assert!(matches!(device_name_by_id(&host, 13), Err(AudioError::NotFound)));
    assert!(matches!(device_uid_by_id(&host, 13), Err(AudioError::NotFound)));
    // no device carries this handle
    assert!(matches!(device_name_by_id(&host, 99), Err(AudioError::NotFound)));
}

#[test]
fn name_for_uid_through_resolution_chain() {
    let host = sample_host();
    assert_eq!(device_name_for_uid(&host, "UID-C").unwrap(), "Mic C");
}

#[test]
fn name_for_uid_by_scan_when_translation_fails() {
    let mut host = sample_host();
    host.translation_available = false;
    assert_eq!(device_name_for_uid(&host, "UID-B").unwrap(), "Mic B");
    assert!(matches!(
        device_name_for_uid(&host, "UID-GONE"),
        Err(AudioError::NotFound)
    ));
}

#[test]
fn placeholder_uid_is_searchable_in_the_listing() {
    // A device whose UID query failed is listed under the placeholder, and
    // the enumeration tier finds it there.
    let mut host = sample_host();
    host.translation_available = false;
    assert_eq!(device_id_for_uid(&host, "<no-uid>").unwrap(), 13);
}
