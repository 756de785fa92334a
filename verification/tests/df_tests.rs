use hdfs_mirror::error::{Cause, ErrorKind, ValueFault};
use hdfs_mirror::hdfs::df::{
    data_line_of, parse_df, record_from_values, UsageRecord, CAP_LINE_RE, VALUES_RE,
};

#[test]
fn test_df_parse_valid_1() {
    const TARGET: &str = "Filesystem            Size          Used     Available       Use%\nhdfs://localhost:8020 244529655808  3608576  161972236288    0%\n";

    const USED: u64 = 3608576;
    const AVAILABLE: u64 = 161972236288;

    let storage = parse_df(TARGET);
    assert!(storage.is_ok());

    let storage = storage.unwrap();
    assert_eq!("hdfs://localhost:8020", storage.filesystem_id());
    assert_eq!(USED + AVAILABLE, storage.capacity_bytes());
    assert_eq!(USED, storage.used_bytes());
    assert_eq!(AVAILABLE, storage.available_bytes());
}

#[test]
fn test_df_parse_invalid_1() {
    // no matching 'Filesystem'
    const TARGET: &str = "FS                    Size          Used     Available       Use%\nhdfs://localhost:8020 244529655808  3608576  161972236288    0%\n";

    let storage = parse_df(TARGET);
    assert!(storage.is_err());
}

#[test]
fn test_df_parse_invalid_2() {
    // 'Use' instead of 'Use%'
    const TARGET: &str = "Filesystem            Size          Used     Available       Use\nhdfs://localhost:8020 244529655808  3608576  161972236288    0%\n";

    let storage = parse_df(TARGET);
    assert!(storage.is_err());
}

#[test]
fn test_df_parse_invalid_3() {
    // Size value is not numeric
    const TARGET: &str = "Filesystem            Size          Used     Available       Use%\nhdfs://localhost:8020 abc           3608576  161972236288    0%\n";

    let storage = parse_df(TARGET);
    assert!(storage.is_err());
}

#[test]
fn test_df_parse_invalid_4() {
    // Used value is not numeric
    const TARGET: &str = "Filesystem            Size          Used     Available       Use%\nhdfs://localhost:8020 244529655808  abc      161972236288    0%\n";

    let storage = parse_df(TARGET);
    assert!(storage.is_err());
}

#[test]
fn test_df_parse_invalid_5() {
    // Available value is not numeric
    const TARGET: &str = "Filesystem            Size          Used     Available       Use%\nhdfs://localhost:8020 244529655808  3608576  abc             0%\n";

    let storage = parse_df(TARGET);
    assert!(storage.is_err());
}

#[test]
fn test_df_parse_invalid_6() {
    // Use value is not numeric
    const TARGET: &str = "Filesystem            Size          Used     Available       Use%\nhdfs://localhost:8020 244529655808  3608576  161972236288    abc%\n";

    let storage = parse_df(TARGET);
    assert!(storage.is_err());
}

fn groups(texts: &[Option<&str>]) -> Option<Vec<Option<String>>> {
    Some(texts.iter().map(|t| t.map(|s| s.to_string())).collect())
}

#[test]
fn missing_header_is_an_initial_capture_error() {
    let text = "FS Size Used Available Use%\nfs 1 2 3 0%\n";
    let e = parse_df(text).unwrap_err();
    assert_eq!(e.kind(), ErrorKind::RegexInitialHdfsDfCap);
    match e.cause() {
        Cause::RegexCapture(c) => {
            assert_eq!(c.pattern, CAP_LINE_RE);
            assert_eq!(c.target, text);
        }
        other => panic!("{:?}", other),
    }
}

#[test]
fn malformed_data_line_is_a_values_capture_error() {
    let text = "Filesystem Size Used Available Use%\nfs 1 x 3 0%\n";
    let e = parse_df(text).unwrap_err();
    assert_eq!(e.kind(), ErrorKind::RegexHdfsDfValuesCap);
    match e.cause() {
        Cause::RegexCapture(c) => {
            assert_eq!(c.pattern, VALUES_RE);
            assert_eq!(c.target, "fs 1 x 3 0%");
        }
        other => panic!("{:?}", other),
    }
}

#[test]
fn data_line_is_group_one_of_the_header_match() {
    let r = data_line_of("whole", groups(&[Some("whole"), Some("fs 1 2 3 0%")]));
    assert_eq!(r.unwrap(), "fs 1 2 3 0%");
}

#[test]
fn data_line_without_match_or_group_fails() {
    let e = data_line_of("report", None).unwrap_err();
    assert_eq!(e.kind(), ErrorKind::RegexInitialHdfsDfCap);
    let e = data_line_of("report", groups(&[Some("report")])).unwrap_err();
    assert_eq!(e.kind(), ErrorKind::RegexInitialHdfsDfCap);
    let e = data_line_of("report", groups(&[Some("report"), None])).unwrap_err();
    assert_eq!(e.kind(), ErrorKind::RegexInitialHdfsDfCap);
}

#[test]
fn record_takes_groups_one_to_three() {
    let r = record_from_values(
        "fs 9 10 32 5%",
        groups(&[Some("fs 9 10 32 5%"), Some("fs"), Some("10"), Some("32")]),
    )
    .unwrap();
    assert_eq!(r.filesystem_id(), "fs");
    assert_eq!(r.used_bytes(), 10);
    assert_eq!(r.capacity_bytes(), 42);
    assert_eq!(r.available_bytes(), 32);
}

#[test]
fn record_without_groups_is_a_values_capture_error() {
    let e = record_from_values("line", None).unwrap_err();
    assert_eq!(e.kind(), ErrorKind::RegexHdfsDfValuesCap);
    let e = record_from_values("line", groups(&[Some("line"), Some("fs"), None, Some("3")]))
        .unwrap_err();
    assert_eq!(e.kind(), ErrorKind::RegexHdfsDfValuesCap);
    let e = record_from_values("line", groups(&[Some("line"), Some("fs"), Some("2")])).unwrap_err();
    assert_eq!(e.kind(), ErrorKind::RegexHdfsDfValuesCap);
}

#[test]
fn used_that_does_not_fit_names_the_used_value() {
    let text = "Filesystem Size Used Available Use%\nfs 1 18446744073709551616 3 0%\n";
    let e = parse_df(text).unwrap_err();
    assert_eq!(e.kind(), ErrorKind::ParseHdfsDfUsedValue);
    match e.cause() {
        Cause::TargetString(t) => {
            assert_eq!(t.target, "18446744073709551616");
            assert_eq!(t.inner, ValueFault::Overflow);
        }
        other => panic!("{:?}", other),
    }
}

#[test]
fn available_that_does_not_fit_names_the_available_value() {
    let text = "Filesystem Size Used Available Use%\nfs 1 2 99999999999999999999 0%\n";
    let e = parse_df(text).unwrap_err();
    assert_eq!(e.kind(), ErrorKind::ParseHdfsDfSizeValue);
    match e.cause() {
        Cause::TargetString(t) => {
            assert_eq!(t.target, "99999999999999999999");
            assert_eq!(t.inner, ValueFault::Overflow);
        }
        other => panic!("{:?}", other),
    }
}

#[test]
fn non_ascii_digits_are_no_number() {
    // the pattern's \d takes any decimal digit of Unicode
    let text = "Filesystem Size Used Available Use%\nfs 1 \u{0663} 3 0%\n";
    let e = parse_df(text).unwrap_err();
    assert_eq!(e.kind(), ErrorKind::ParseHdfsDfUsedValue);
    match e.cause() {
        Cause::TargetString(t) => {
            assert_eq!(t.target, "\u{0663}");
            assert_eq!(t.inner, ValueFault::InvalidDigit);
        }
        other => panic!("{:?}", other),
    }
}

#[test]
fn capacity_that_does_not_fit_is_refused() {
    let text = "Filesystem Size Used Available Use%\nfs 1 18446744073709551615 1 0%\n";
    let e = parse_df(text).unwrap_err();
    assert_eq!(e.kind(), ErrorKind::ParseHdfsDfSizeValue);
    match e.cause() {
        Cause::TargetString(t) => {
            assert_eq!(t.target, "1");
            assert_eq!(t.inner, ValueFault::Overflow);
        }
        other => panic!("{:?}", other),
    }
}

#[test]
fn capacity_is_used_plus_available_not_the_size_column() {
    let text = "Filesystem Size Used Available Use%\nhdfs://nn 1000 300 500 30%\n";
    let r = parse_df(text).unwrap();
    assert_eq!(r.capacity_bytes(), 800);
    assert_eq!(r.used_bytes(), 300);
}

#[test]
fn usage_record_new_adds_and_checks() {
    let r = UsageRecord::new("fs".to_string(), 5, 7).unwrap();
    assert_eq!(r.capacity_bytes(), 12);
    assert_eq!(r.available_bytes(), 7);
    assert!(UsageRecord::new("fs".to_string(), u64::MAX, 1).is_none());
    assert!(UsageRecord::new("fs".to_string(), u64::MAX, 0).is_some());
}
