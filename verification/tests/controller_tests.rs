use soundstoic::controller::Controller;
use soundstoic::controller::EnforceResult;
use soundstoic::host::RawDevice;
use soundstoic::sim::SimHost;

fn dev(id: u32, uid: &str, name: &str) -> RawDevice {
    RawDevice {
        id,
        name: Some(name.to_string()),
        uid: Some(uid.to_string()),
        input_channels: Some(2),
        has_input_streams: true,
    }
}

fn host_with(devices: Vec<RawDevice>, default_input: u32) -> SimHost {
    SimHost { devices, default_input, translation_available: true }
}

#[test]
fn snapshot_reflects_construction() {
    let c = Controller::new(true, Some("UID-A".to_string()));
    let s = c.snapshot();
    assert!(s.enabled);
    assert_eq!(s.locked_uid.as_deref(), Some("UID-A"));
    assert!(!s.locked_missing);
}

#[test]
fn set_enabled_changes_only_the_flag() {
    let mut c = Controller::new(false, Some("UID-A".to_string()));
    c.set_enabled(true);
    let s = c.snapshot();
    assert!(s.enabled);
    assert_eq!(s.locked_uid.as_deref(), Some("UID-A"));
}

#[test]
fn set_locked_uid_clears_missing_flag() {
    let mut c = Controller::new(true, Some("UID-GONE".to_string()));
    let mut host = host_with(vec![dev(10, "UID-A", "Mic A")], 10);
    let r = c.enforce(&mut host, 0).unwrap();
    assert!(r.locked_missing);
    assert!(c.snapshot().locked_missing);
    // a fresh selection deserves a fresh resolution attempt
    c.set_locked_uid(Some("UID-A".to_string()));
    assert!(!c.snapshot().locked_missing);
}

#[test]
fn corrective_write_when_default_drifted() {
    // enabled, locked to UID-A, current default is another handle, and the
    // directory resolves UID-A: one corrective write happens.
    let mut c = Controller::new(true, Some("UID-A".to_string()));
    let mut host = host_with(vec![dev(10, "UID-A", "Mic A"), dev(20, "UID-B", "Mic B")], 20);
    let r = c.enforce(&mut host, 1000).unwrap();
    assert_eq!(r, EnforceResult { changed: true, locked_missing: false });
    assert_eq!(host.default_input, 10);
    assert!(!c.snapshot().locked_missing);
}

#[test]
fn disabled_lock_is_a_no_op() {
    let mut c = Controller::new(false, Some("UID-A".to_string()));
    let mut host = host_with(vec![dev(10, "UID-A", "Mic A")], 20);
    let r = c.enforce(&mut host, 0).unwrap();
    assert_eq!(r, EnforceResult { changed: false, locked_missing: false });
    assert_eq!(host.default_input, 20);
}

#[test]
fn unset_target_is_a_no_op() {
    let mut c = Controller::new(true, None);
    assert_eq!(c.snapshot().locked_uid, None);
    let mut host = host_with(vec![dev(10, "UID-A", "Mic A")], 20);
    let r = c.enforce(&mut host, 0).unwrap();
    assert_eq!(r, EnforceResult { changed: false, locked_missing: false });
    assert_eq!(host.default_input, 20);
}

#[test]
fn unresolved_target_sets_missing_flag() {
    let mut c = Controller::new(true, Some("UID-X".to_string()));
    let mut host = host_with(vec![dev(10, "UID-A", "Mic A")], 10);
    let r = c.enforce(&mut host, 0).unwrap();
    assert_eq!(r, EnforceResult { changed: false, locked_missing: true });
    assert!(c.snapshot().locked_missing);
    assert_eq!(host.default_input, 10);
}

#[test]
fn enforce_is_idempotent_when_already_default() {
    let mut c = Controller::new(true, Some("UID-A".to_string()));
    let mut host = host_with(vec![dev(10, "UID-A", "Mic A")], 10);
    for now in [0u64, 500, 1000] {
        let r = c.enforce(&mut host, now).unwrap();
        assert_eq!(r, EnforceResult { changed: false, locked_missing: false });
        assert_eq!(host.default_input, 10);
    }
}

#[test]
fn echo_of_own_write_is_suppressed() {
    let mut c = Controller::new(true, Some("UID-A".to_string()));
    let mut host = host_with(vec![dev(10, "UID-A", "Mic A"), dev(20, "UID-B", "Mic B")], 20);
    let r = c.enforce(&mut host, 1000).unwrap();
    assert!(r.changed);
    assert_eq!(host.default_input, 10);

    // Pretend the read still sees the pre-write default, as it can while
    // the subsystem's own notification for our write is in flight.
    host.default_input = 20;
    let r = c.enforce(&mut host, 1200).unwrap();
    assert_eq!(r, EnforceResult { changed: false, locked_missing: false });
    assert_eq!(host.default_input, 20); // suppressed: no second write

    // Once the window has passed, drift is corrected again.
    let r = c.enforce(&mut host, 1400).unwrap();
    assert!(r.changed);
    assert_eq!(host.default_input, 10);
}

#[test]
fn suppression_window_boundary() {
    let mut c = Controller::new(true, Some("UID-A".to_string()));
    let mut host = host_with(vec![dev(10, "UID-A", "Mic A")], 20);
    assert!(c.enforce(&mut host, 1000).unwrap().changed);

    host.default_input = 20;
    // 349 ms after the write: still inside the window
    let r = c.enforce(&mut host, 1349).unwrap();
    assert!(!r.changed);
    assert_eq!(host.default_input, 20);
    // exactly 350 ms after the write: the window is over
    let r = c.enforce(&mut host, 1350).unwrap();
    assert!(r.changed);
    assert_eq!(host.default_input, 10);
}

#[test]
fn clock_going_backwards_counts_as_no_elapsed_time() {
    let mut c = Controller::new(true, Some("UID-A".to_string()));
    let mut host = host_with(vec![dev(10, "UID-A", "Mic A")], 20);
    assert!(c.enforce(&mut host, 1000).unwrap().changed);

    host.default_input = 20;
    // an earlier timestamp than the recorded write: treated as within the window
    let r = c.enforce(&mut host, 500).unwrap();
    assert!(!r.changed);
    assert_eq!(host.default_input, 20);
}

#[test]
fn suppressed_pass_clears_stale_missing_flag() {
    // The flag tracks the most recent resolution attempt: once the device
    // is back, a pass clears a stale flag even when the write is skipped
    // as the echo of this controller's own recent write.
    let mut c = Controller::new(true, Some("UID-A".to_string()));
    let mut host = host_with(vec![dev(10, "UID-A", "Mic A")], 20);
    assert!(c.enforce(&mut host, 1000).unwrap().changed);
    assert!(!c.snapshot().locked_missing);

    // the device vanishes: the next pass flags it missing
    let gone = host.devices.pop().unwrap();
    let r = c.enforce(&mut host, 1100).unwrap();
    assert_eq!(r, EnforceResult { changed: false, locked_missing: true });
    assert!(c.snapshot().locked_missing);

    // it returns while the self-suppression window is still open: the pass
    // resolves it, skips the write, and clears the stale flag
    host.devices.push(gone);
    host.default_input = 20;
    let r = c.enforce(&mut host, 1200).unwrap();
    assert_eq!(r, EnforceResult { changed: false, locked_missing: false });
    assert!(!c.snapshot().locked_missing);
    assert_eq!(host.default_input, 20); // still no second write
}

#[test]
fn missing_flag_lifecycle() {
    // Locking onto a UID with no connected device flags it missing;
    // connecting a matching device and enforcing clears the flag with
    // exactly one corrective write.
    let mut c = Controller::new(true, None);
    let mut host = host_with(vec![dev(20, "UID-B", "Mic B")], 20);
    c.set_locked_uid(Some("UID-A".to_string()));
    let r = c.enforce(&mut host, 0).unwrap();
    assert_eq!(r, EnforceResult { changed: false, locked_missing: true });
    assert!(c.snapshot().locked_missing);

    // the device gets connected
    host.devices.push(dev(10, "UID-A", "Mic A"));
    let r = c.enforce(&mut host, 100).unwrap();
    assert_eq!(r, EnforceResult { changed: true, locked_missing: false });
    assert!(!c.snapshot().locked_missing);
    assert_eq!(host.default_input, 10);

    // nothing further to correct
    let r = c.enforce(&mut host, 600).unwrap();
    assert_eq!(r, EnforceResult { changed: false, locked_missing: false });
    assert_eq!(host.default_input, 10);
}

#[test]
fn equal_default_clears_missing_flag() {
    let mut c = Controller::new(true, Some("UID-A".to_string()));
    let mut host = host_with(vec![dev(20, "UID-B", "Mic B")], 10);
    let r = c.enforce(&mut host, 0).unwrap();
    assert!(r.locked_missing);
    assert!(c.snapshot().locked_missing);

    // the device comes back and the default is already right: no write,
    // but the flag is cleared
    host.devices.push(dev(10, "UID-A", "Mic A"));
    let r = c.enforce(&mut host, 1000).unwrap();
    assert_eq!(r, EnforceResult { changed: false, locked_missing: false });
    assert!(!c.snapshot().locked_missing);
    assert_eq!(host.default_input, 10);
}

#[test]
fn enforce_resolves_through_fallback_when_translation_fails() {
    let mut c = Controller::new(true, Some("UID-A".to_string()));
    let mut host = host_with(vec![dev(10, "UID-A", "Mic A")], 20);
    host.translation_available = false;
    let r = c.enforce(&mut host, 0).unwrap();
    assert_eq!(r, EnforceResult { changed: true, locked_missing: false });
    assert_eq!(host.default_input, 10);
}

#[test]
fn default_enforce_result_is_a_no_op() {
    let r = EnforceResult::default();
    assert!(!r.changed);
    assert!(!r.locked_missing);
}
