use windy_station::text::{decimal_string, quoted, same_text};
use windy_station::quantity::check_number;
use windy_station::{Quantity, StationVisibility, Timestamp};

#[test]
fn visibility_wire_names() {
    assert_eq!(StationVisibility::Open.as_str(), "Open");
    assert_eq!(StationVisibility::OnlyWindy.as_str(), "Only Windy");
    assert_eq!(StationVisibility::Private.as_str(), "Private");
}

#[test]
fn visibility_round_trips() {
    for policy in [StationVisibility::Open, StationVisibility::OnlyWindy, StationVisibility::Private] {
        assert_eq!(StationVisibility::from_wire_name(policy.as_str()), Some(policy));
    }
    assert_eq!(StationVisibility::from_wire_name("Only Windy"), Some(StationVisibility::OnlyWindy));
}

#[test]
fn visibility_rejects_other_names() {
    for name in ["", "OnlyWindy", "only windy", "Only  Windy", "Only Windy ", "open", "Public", "Privat"] {
        assert_eq!(StationVisibility::from_wire_name(name), None);
    }
}

#[test]
fn decimal_numerals() {
    assert_eq!(decimal_string(0), "0");
    assert_eq!(decimal_string(9), "9");
    assert_eq!(decimal_string(10), "10");
    assert_eq!(decimal_string(62), "62");
    assert_eq!(decimal_string(1000), "1000");
    assert_eq!(decimal_string(4294967295), "4294967295");
}

#[test]
fn quoted_strings_agree_with_serde_json() {
    let mut all_controls = String::new();
    for code in 0_u32..0x30 {
        all_controls.push(char::from_u32(code).unwrap());
    }
    for s in ["", "plain", "\"", "\\", "a\"b\\c", "\u{8}\u{c}\n\r\t", "\u{0}\u{1f}\u{7f}", "caf\u{e9} \u{1f600}", "/", all_controls.as_str()] {
        assert_eq!(quoted(s), serde_json::to_string(s).unwrap());
    }
    assert_eq!(quoted("a\u{1b}b"), "\"a\\u001bb\"");
    assert_eq!(quoted("tab\there"), "\"tab\\there\"");
}

#[test]
fn same_text_compares_letter_for_letter() {
    assert!(same_text("", ""));
    assert!(same_text("abc", "abc"));
    assert!(!same_text("abc", "abd"));
    assert!(!same_text("abc", "ab"));
    assert!(!same_text("ab", "abc"));
    assert!(same_text("caf\u{e9}", "caf\u{e9}"));
}

#[test]
fn numbers_are_recognized() {
    for s in ["0", "-0", "7", "10", "-1.2", "99.0", "49.28273", "-123.120735", "1e21", "1E21", "1.5e-7", "2e+3", "0.0", "0e0", "1021000.0", "3.4028235e38"] {
        assert!(check_number(s), "{}", s);
        assert_eq!(Quantity::from_json(s).unwrap().as_str(), s);
    }
}

#[test]
fn other_texts_are_refused() {
    for s in ["", "-", "+1", "01", "00", "1.", ".5", "1e", "1e+", "1e-", "e5", "1.e5", "1 ", " 1", "1,5", "0x10", "1.2.3", "--1", "NaN", "inf", "nul", "nulll", "Null", "true", "\"1\"", "1f", "\u{661}"] {
        assert!(!check_number(s), "{}", s);
        assert!(Quantity::from_json(s).is_none(), "{}", s);
    }
}

#[test]
fn null_is_a_quantity_and_no_number() {
    assert!(!check_number("null"));
    assert_eq!(Quantity::from_json("null").unwrap().as_str(), "null");
}

#[test]
fn quantities_take_what_serde_json_writes() {
    for value in [0.0_f32, -0.0, 1.0, -1.2, 99.0, 1e-7, 1.5e21, f32::MAX, f32::MIN_POSITIVE, f32::NAN, f32::INFINITY, f32::NEG_INFINITY] {
        let text = serde_json::to_string(&value).unwrap();
        let quantity = Quantity::from_json(&text).unwrap();
        assert_eq!(quantity.as_str(), text);
        assert_eq!(quantity.clone(), quantity);
    }
}

#[test]
fn timestamps_are_written_in_utc() {
    let epoch = Timestamp::from_unix(0, 0).unwrap();
    assert_eq!(epoch.as_str(), "1970-01-01T00:00:00Z");
    assert_eq!(epoch.unix_seconds(), 0);
    assert_eq!(epoch.subsec_nanos(), 0);
    assert_eq!(Timestamp::from_unix(1414109021, 636000000).unwrap().as_str(), "2014-10-24T00:03:41.636Z");
    assert_eq!(Timestamp::from_unix(1414109021, 636001000).unwrap().as_str(), "2014-10-24T00:03:41.636001Z");
    assert_eq!(Timestamp::from_unix(1414109021, 1).unwrap().as_str(), "2014-10-24T00:03:41.000000001Z");
    assert_eq!(Timestamp::from_unix(-1, 0).unwrap().as_str(), "1969-12-31T23:59:59Z");
    let moment = Timestamp::from_unix(1414109021, 636000000).unwrap();
    assert_eq!(moment.unix_seconds(), 1414109021);
    assert_eq!(moment.subsec_nanos(), 636000000);
    assert_eq!(moment.clone(), moment);
}

#[test]
fn timestamps_agree_with_chrono_serialized() {
    for (secs, nanos) in [(0_i64, 0_u32), (1414109021, 636000000), (951782400, 5), (253402300799, 999999999), (253402300800, 0), (-62198755200, 0)] {
        let moment = chrono::DateTime::from_timestamp(secs, nanos).unwrap();
        let written = serde_json::to_string(&moment).unwrap();
        let ours = Timestamp::from_unix(secs, nanos).unwrap();
        assert_eq!(quoted(ours.as_str()), written);
    }
}

#[test]
fn moments_out_of_range_are_refused() {
    assert!(Timestamp::from_unix(i64::MAX, 0).is_none());
    assert!(Timestamp::from_unix(i64::MIN, 0).is_none());
    assert!(Timestamp::from_unix(0, 2_000_000_000).is_none());
    assert!(Timestamp::from_unix(0, 1_000_000_000).is_none());
}
