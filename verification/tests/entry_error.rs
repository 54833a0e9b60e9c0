use audit_userspace_rs::auparse::entry::Entry;
use audit_userspace_rs::auparse::error::{init_result, Error};
use audit_userspace_rs::auparse::types::Type;
use audit_userspace_rs::auparse::util::{int_field_or_missing, MISSING_FIELD};
use audit_userspace_rs::{scan_step, ScanAction, ScanEvent};
use std::time::{Duration, UNIX_EPOCH};

#[test]
fn parse_builds_entry_from_fields() {
    let e = Entry::parse(1300, 1_700_000_000, 42, 1000, 100);
    assert_eq!(e.etype, Type::Syscall);
    assert_eq!(e.time, 1_700_000_000);
    assert_eq!(e.pid, 42);
    assert_eq!(e.uid, 1000);
    assert_eq!(e.gid, 100);
}

#[test]
fn parse_keeps_unknown_type_and_missing_fields() {
    let e = Entry::parse(1400, 0, -1, -1, -1);
    assert_eq!(e.etype, Type::Unknown(1400));
    assert_eq!(e.time, 0);
    assert_eq!((e.pid, e.uid, e.gid), (-1, -1, -1));
}

#[test]
fn has_next_only_on_status_one() {
    assert!(Entry::has_next(1));
    assert!(!Entry::has_next(0));
    assert!(!Entry::has_next(-1));
    assert!(!Entry::has_next(2));
}

#[test]
fn missing_field_reads_minus_one() {
    assert_eq!(int_field_or_missing(None), -1);
    assert_eq!(MISSING_FIELD, -1);
    assert_eq!(int_field_or_missing(Some(1234)), 1234);
    assert_eq!(int_field_or_missing(Some(-1)), -1);
}

#[test]
fn init_result_fails_without_handle() {
    assert!(matches!(init_result::<u8>(None), Err(Error::NativeInitFail)));
    assert!(matches!(init_result(Some(7u8)), Ok(7)));
}

#[test]
fn error_debug_names_variant() {
    assert_eq!(format!("{:?}", Error::NativeInitFail), "NativeInitFail");
}

#[test]
fn error_messages() {
    assert_eq!(Error::NativeInitFail.message(), "Failed to init auparse");
    assert_eq!(
        Error::GeneralFail("Duration from uptime".to_string()).message(),
        "General failure: Duration from uptime"
    );
    assert_eq!(Error::GeneralFail(String::new()).message(), "General failure: ");
}

#[test]
fn duration_error_converts_and_shows_std_text() {
    let earlier = UNIX_EPOCH;
    let later = UNIX_EPOCH + Duration::from_secs(10);
    let err = earlier.duration_since(later).unwrap_err();
    let text = err.to_string();
    let e: Error = Error::from(err);
    assert!(matches!(e, Error::DurationError(_)));
    assert_eq!(e.message(), text);
}

#[test]
fn boot_scan_decisions() {
    assert!(matches!(scan_step(ScanEvent::Advanced(1)), ScanAction::ReadType));
    assert!(matches!(scan_step(ScanEvent::Advanced(5)), ScanAction::ReadType));
    assert!(matches!(scan_step(ScanEvent::Advanced(0)), ScanAction::End));
    assert!(matches!(scan_step(ScanEvent::Advanced(-1)), ScanAction::End));
    assert!(matches!(scan_step(ScanEvent::Typed(1127)), ScanAction::ReadTime));
    assert!(matches!(scan_step(ScanEvent::Typed(1300)), ScanAction::Advance));
    assert!(matches!(scan_step(ScanEvent::Timed(1_650_000_000)), ScanAction::Yield(1_650_000_000)));
    assert!(matches!(scan_step(ScanEvent::Timed(0)), ScanAction::Yield(0)));
}

/// Drives the scan over a list of (type, time) events, as the parser would answer it.
fn run_scan(events: &[(u32, i64)]) -> Option<u64> {
    let mut pos = 0usize;
    let mut action = ScanAction::Advance;
    loop {
        action = match action {
            ScanAction::Advance => {
                let status = if pos < events.len() { 1 } else { 0 };
                pos += 1;
                scan_step(ScanEvent::Advanced(status))
            }
            ScanAction::ReadType => scan_step(ScanEvent::Typed(events[pos - 1].0)),
            ScanAction::ReadTime => scan_step(ScanEvent::Timed(events[pos - 1].1)),
            ScanAction::Yield(t) => return Some(t),
            ScanAction::End => return None,
        };
    }
}

#[test]
fn boot_scan_finds_first_boot() {
    assert_eq!(run_scan(&[(1300, 1), (1127, 20), (1127, 30)]), Some(20));
    assert_eq!(run_scan(&[(1300, 1), (1307, 2)]), None);
    assert_eq!(run_scan(&[]), None);
}
