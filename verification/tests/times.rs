use file_times::error::TimeError;
use file_times::times::create_system_time_from_timestamp;
use file_times::times::plan_file_times;
use file_times::times::render_file_times;
use file_times::times::system_time_to_seconds;
use file_times::times::NativeInstant;
use file_times::times::RawInstant;
use file_times::times::SetFileTimesOptions;

fn options(btime: Option<&str>, mtime: Option<&str>, atime: Option<&str>) -> SetFileTimesOptions {
    SetFileTimesOptions {
        path: String::from("some/file"),
        btime: btime.map(String::from),
        mtime: mtime.map(String::from),
        atime: atime.map(String::from),
    }
}

fn at(secs: u64, nanos: u32) -> RawInstant {
    RawInstant { before_epoch: false, secs, nanos }
}

#[test]
fn stages_only_the_requested_fields() {
    let req = plan_file_times(&options(None, Some("1700000000"), None), true).unwrap();
    assert_eq!(req.created, None);
    assert_eq!(req.modified, Some(NativeInstant { secs: 1700000000, nanos: 0 }));
    assert_eq!(req.accessed, None);
}

#[test]
fn stages_all_three_fields_with_creation_support() {
    let req = plan_file_times(
        &options(Some("1700000000123"), Some("1600000000"), Some("1500000000999")),
        true,
    )
    .unwrap();
    assert_eq!(req.created, Some(NativeInstant { secs: 1700000000, nanos: 123_000_000 }));
    assert_eq!(req.modified, Some(NativeInstant { secs: 1600000000, nanos: 0 }));
    assert_eq!(req.accessed, Some(NativeInstant { secs: 1500000000, nanos: 999_000_000 }));
}

#[test]
fn drops_creation_time_without_platform_support() {
    let req = plan_file_times(&options(Some("1700000000"), Some("1600000000"), None), false)
        .unwrap();
    assert_eq!(req.created, None);
    assert_eq!(req.modified, Some(NativeInstant { secs: 1600000000, nanos: 0 }));
    assert_eq!(req.accessed, None);
}

#[test]
fn ignores_a_malformed_creation_time_without_platform_support() {
    let req = plan_file_times(&options(Some("not a timestamp"), None, None), false).unwrap();
    assert_eq!(req.created, None);
    assert_eq!(req.modified, None);
    assert_eq!(req.accessed, None);
}

#[test]
fn rejects_a_malformed_honored_field() {
    let r = plan_file_times(&options(None, Some("17"), None), true);
    assert_eq!(r, Err(TimeError::InvalidTimestamp));
    let r = plan_file_times(&options(Some("17"), None, None), true);
    assert_eq!(r, Err(TimeError::InvalidTimestamp));
    let r = plan_file_times(&options(None, None, Some("1700000000x23")), true);
    assert_eq!(r, Err(TimeError::InvalidTimestamp));
}

#[test]
fn stages_nothing_from_empty_options() {
    let req = plan_file_times(&options(None, None, None), true).unwrap();
    assert_eq!(req.created, None);
    assert_eq!(req.modified, None);
    assert_eq!(req.accessed, None);
}

#[test]
fn builds_an_instant_from_a_timestamp_pair() {
    let t = create_system_time_from_timestamp(&1700000000, &123_000_000);
    assert_eq!(t, NativeInstant { secs: 1700000000, nanos: 123_000_000 });
}

#[test]
fn truncates_an_instant_to_whole_seconds() {
    assert_eq!(system_time_to_seconds(&at(1700000000, 999_999_999)), Ok(1700000000));
    assert_eq!(system_time_to_seconds(&at(0, 0)), Ok(0));
}

#[test]
fn reports_a_pre_epoch_instant_as_a_conversion_error() {
    let before = RawInstant { before_epoch: true, secs: 3, nanos: 500_000_000 };
    assert_eq!(system_time_to_seconds(&before), Err(TimeError::TimeConversionError));
}

#[test]
fn renders_all_present_readings_as_second_strings() {
    let r = render_file_times(
        Some(at(1700000000, 123_456_789)),
        Some(at(1600000000, 0)),
        Some(at(1500000000, 999_999_999)),
    );
    assert_eq!(r.error, None);
    assert_eq!(r.btime.as_deref(), Some("1700000000"));
    assert_eq!(r.mtime.as_deref(), Some("1600000000"));
    assert_eq!(r.atime.as_deref(), Some("1500000000"));
}

#[test]
fn renders_an_absent_creation_reading_as_absent_without_error() {
    let r = render_file_times(None, Some(at(1600000000, 0)), Some(at(1500000000, 0)));
    assert_eq!(r.error, None);
    assert_eq!(r.btime, None);
    assert_eq!(r.mtime.as_deref(), Some("1600000000"));
    assert_eq!(r.atime.as_deref(), Some("1500000000"));
}

#[test]
fn renders_a_pre_epoch_reading_as_an_error_with_no_fields() {
    let before = RawInstant { before_epoch: true, secs: 1, nanos: 0 };
    let r = render_file_times(Some(at(1700000000, 0)), Some(before), Some(at(1500000000, 0)));
    assert_eq!(r.error.as_deref(), Some("time predates the Unix epoch"));
    assert_eq!(r.btime, None);
    assert_eq!(r.mtime, None);
    assert_eq!(r.atime, None);
}
