use serde_json::Value;
use tauri_global_sys::http::raw::{ClientsOptions, ConnectTimout};
use tauri_global_sys::http::timeout::parse_seconds;

fn json(text: &str) -> Value {
    serde_json::from_str(text).unwrap()
}

#[test]
fn plain_decimals_are_read_to_the_nanosecond() {
    assert_eq!(parse_seconds(b"5.000000234"), Some(5_000_000_234));
    assert_eq!(parse_seconds(b"5"), Some(5_000_000_000));
    assert_eq!(parse_seconds(b"0"), Some(0));
    assert_eq!(parse_seconds(b"0.5"), Some(500_000_000));
    assert_eq!(parse_seconds(b"2.0"), Some(2_000_000_000));
    assert_eq!(parse_seconds(b"007.25"), Some(7_250_000_000));
    assert_eq!(parse_seconds(b"0.000000001"), Some(1));
    assert_eq!(parse_seconds(b"12.123456789"), Some(12_123_456_789));
}

#[test]
fn digits_below_a_nanosecond_are_dropped() {
    assert_eq!(parse_seconds(b"1.0000000009"), Some(1_000_000_000));
    assert_eq!(parse_seconds(b"0.9999999999999"), Some(999_999_999));
    assert_eq!(parse_seconds(b"3.1234567891"), Some(3_123_456_789));
}

#[test]
fn anything_but_a_plain_decimal_is_refused() {
    for text in [
        "", ".", "5.", ".5", "-1", "+1", "1.5x", "x", " 1", "1 ", "1.2.3", "1,5", "1.-5", "0x10",
        "1.0000000000x", "e5", "1e", "1e+", "1e-", "1.e5", "1ee5", "1e5x", "1e1.5", "1 e5",
        "1e 5", "1e--5", "1e12345", "1e-00001", "-1e5", "1e5e5",
    ] {
        assert_eq!(parse_seconds(text.as_bytes()), None, "{text:?}");
    }
}

#[test]
fn the_longest_time_that_fits_is_read_and_no_longer_one() {
    assert_eq!(
        parse_seconds(b"340282366920938463463374607431.768211455"),
        Some(u128::MAX)
    );
    assert_eq!(parse_seconds(b"340282366920938463463374607431.768211456"), None);
    assert_eq!(parse_seconds(b"340282366920938463463374607432"), None);
    assert_eq!(
        parse_seconds(b"340282366920938463463374607431"),
        Some(340_282_366_920_938_463_463_374_607_431_000_000_000)
    );
    assert_eq!(parse_seconds(b"340282366920938463463374607431768211455"), None);
    assert_eq!(parse_seconds(b"340282366920938463463374607431768211456"), None);
    assert_eq!(parse_seconds(b"99999999999999999999999999999999999999999999"), None);
    assert_eq!(parse_seconds(b"99999999999999999999999999999999999999999999x"), None);
}

#[test]
fn both_shapes_are_read_and_mean_the_same() {
    let number = ConnectTimout::from_json(&json("5.000000234")).unwrap();
    let object = ConnectTimout::from_json(&json(r#"{ "secs": 5, "nanos": 234 }"#)).unwrap();
    assert_eq!(number, ConnectTimout::Number(5_000_000_234));
    assert_eq!(object, ConnectTimout::Duration { nanos: 234, secs: 5 });
    assert!(number.same_duration(&object));
    assert!(object.same_duration(&number));
    assert_eq!(number.normalized(), Some(object));
}

#[test]
fn a_json_number_is_read_as_seconds() {
    assert_eq!(
        ConnectTimout::from_json(&json("2.0")),
        Some(ConnectTimout::Number(2_000_000_000))
    );
    assert_eq!(ConnectTimout::from_json(&json("30")), Some(ConnectTimout::Number(30_000_000_000)));
    assert_eq!(ConnectTimout::from_json(&json("0.25")), Some(ConnectTimout::Number(250_000_000)));
    assert_eq!(ConnectTimout::from_json(&json("-1")), None);
    assert_eq!(ConnectTimout::from_json(&json("1e300")), None);
    assert_eq!(ConnectTimout::from_json(&json("0.0000001")), Some(ConnectTimout::Number(100)));
    assert_eq!(ConnectTimout::from_json(&json("1.5e-7")), Some(ConnectTimout::Number(150)));
    assert_eq!(
        ConnectTimout::from_json(&json("1e21")),
        Some(ConnectTimout::Number(1_000_000_000_000_000_000_000_000_000_000))
    );
    assert_eq!(
        ConnectTimout::from_json(&json("100000000000000000000.0")),
        Some(ConnectTimout::Number(100_000_000_000_000_000_000_000_000_000))
    );
    assert_eq!(ConnectTimout::from_json(&json("5e-324")), Some(ConnectTimout::Number(0)));
    assert_eq!(ConnectTimout::from_json(&json("1.7976931348623157e308")), None);
}

#[test]
fn a_json_object_needs_both_fields_as_unsigned_integers() {
    assert_eq!(
        ConnectTimout::from_json(&json(r#"{"nanos": 0, "secs": 18446744073709551615}"#)),
        Some(ConnectTimout::Duration { nanos: 0, secs: u64::MAX })
    );
    assert_eq!(
        ConnectTimout::from_json(&json(r#"{"nanos": 1, "secs": 2, "extra": true}"#)),
        Some(ConnectTimout::Duration { nanos: 1, secs: 2 })
    );
    for text in [
        r#"{"secs": 5}"#,
        r#"{"nanos": 5}"#,
        r#"{}"#,
        r#"{"secs": -5, "nanos": 1}"#,
        r#"{"secs": "5", "nanos": 1}"#,
        r#"{"secs": 5.5, "nanos": 1}"#,
        r#"{"secs": 5, "nanos": null}"#,
        r#"null"#,
        r#"true"#,
        r#""5""#,
        r#"[5, 234]"#,
    ] {
        assert_eq!(ConnectTimout::from_json(&json(text)), None, "{text}");
    }
}

#[test]
fn a_number_wins_over_fields() {
    assert_eq!(
        ConnectTimout::from_shapes(Some(b"1.5"), Some(9), Some(9)),
        Some(ConnectTimout::Number(1_500_000_000))
    );
    assert_eq!(
        ConnectTimout::from_shapes(Some(b"1.5e1"), Some(9), Some(9)),
        Some(ConnectTimout::Number(15_000_000_000))
    );
    assert_eq!(ConnectTimout::from_shapes(Some(b"1.5e"), Some(9), Some(9)), None);
    assert_eq!(
        ConnectTimout::from_shapes(None, Some(5), Some(234)),
        Some(ConnectTimout::Duration { nanos: 234, secs: 5 })
    );
    assert_eq!(ConnectTimout::from_shapes(None, Some(5), None), None);
    assert_eq!(ConnectTimout::from_shapes(None, None, Some(234)), None);
    assert_eq!(ConnectTimout::from_shapes(None, None, None), None);
}

#[test]
fn client_options_read_the_timeout_in_either_shape() {
    let number = ClientsOptions::from_json(&json(
        r#"{"maxRedirection": 3, "connectTimout": 5.000000234}"#,
    ))
    .unwrap();
    let object = ClientsOptions::from_json(&json(
        r#"{"connectTimout": {"secs": 5, "nanos": 234}, "maxRedirection": 3}"#,
    ))
    .unwrap();
    assert_eq!(number.max_redirection, Some(3));
    assert_eq!(object.max_redirection, Some(3));
    assert_eq!(number.connect_timout, Some(ConnectTimout::Number(5_000_000_234)));
    assert_eq!(object.connect_timout, Some(ConnectTimout::Duration { nanos: 234, secs: 5 }));
    assert!(number.connect_timout.unwrap().same_duration(&object.connect_timout.unwrap()));
}

#[test]
fn client_options_may_leave_either_setting_out() {
    assert_eq!(ClientsOptions::from_json(&json("{}")), Some(ClientsOptions::default()));
    assert_eq!(
        ClientsOptions::from_json(&json(r#"{"maxRedirection": null, "connectTimout": null}"#)),
        Some(ClientsOptions::default())
    );
    assert_eq!(
        ClientsOptions::from_json(&json(r#"{"maxRedirection": 4294967295, "other": 1}"#)),
        Some(ClientsOptions { max_redirection: Some(u32::MAX), connect_timout: None })
    );
    assert_eq!(
        ClientsOptions::from_json(&json(r#"{"connectTimout": 0}"#)),
        Some(ClientsOptions {
            max_redirection: None,
            connect_timout: Some(ConnectTimout::Number(0)),
        })
    );
}

#[test]
fn client_options_of_a_wrong_shape_are_refused() {
    for text in [
        "null",
        "5",
        "[]",
        r#""options""#,
        r#"{"maxRedirection": 4294967296}"#,
        r#"{"maxRedirection": -1}"#,
        r#"{"maxRedirection": 1.5}"#,
        r#"{"maxRedirection": "3"}"#,
        r#"{"connectTimout": "5"}"#,
        r#"{"connectTimout": -5}"#,
        r#"{"connectTimout": {"secs": 5}}"#,
        r#"{"connectTimout": true, "maxRedirection": 1}"#,
    ] {
        assert_eq!(ClientsOptions::from_json(&json(text)), None, "{text}");
    }
}

#[test]
fn an_exponent_moves_the_point() {
    assert_eq!(parse_seconds(b"1e3"), Some(1_000_000_000_000));
    assert_eq!(parse_seconds(b"1E3"), Some(1_000_000_000_000));
    assert_eq!(parse_seconds(b"1e+3"), Some(1_000_000_000_000));
    assert_eq!(parse_seconds(b"1.5e3"), Some(1_500_000_000_000));
    assert_eq!(parse_seconds(b"1.5e0"), Some(1_500_000_000));
    assert_eq!(parse_seconds(b"1.5e-0"), Some(1_500_000_000));
    assert_eq!(parse_seconds(b"1e-3"), Some(1_000_000));
    assert_eq!(parse_seconds(b"1e-7"), Some(100));
    assert_eq!(parse_seconds(b"1.5e-7"), Some(150));
    assert_eq!(parse_seconds(b"1e-9"), Some(1));
    assert_eq!(parse_seconds(b"0.000000001e9"), Some(1_000_000_000));
    assert_eq!(parse_seconds(b"5.000000234e0"), Some(5_000_000_234));
    assert_eq!(parse_seconds(b"0.5000000234e1"), Some(5_000_000_234));
    assert_eq!(parse_seconds(b"5000000234e-9"), Some(5_000_000_234));
    assert_eq!(parse_seconds(b"12e0003"), Some(12_000_000_000_000));
}

#[test]
fn what_an_exponent_puts_below_a_nanosecond_is_dropped() {
    assert_eq!(parse_seconds(b"1e-10"), Some(0));
    assert_eq!(parse_seconds(b"9.99e-10"), Some(0));
    assert_eq!(parse_seconds(b"19e-10"), Some(1));
    assert_eq!(parse_seconds(b"123456789e-17"), Some(1));
    assert_eq!(parse_seconds(b"5e-324"), Some(0));
    assert_eq!(parse_seconds(b"1e-9999"), Some(0));
    assert_eq!(parse_seconds(b"123456789012345678901234567890e-9999"), Some(0));
}

#[test]
fn a_number_with_an_exponent_is_held_as_far_as_it_fits() {
    assert_eq!(parse_seconds(b"0e9999"), Some(0));
    assert_eq!(parse_seconds(b"0.000e9999"), Some(0));
    assert_eq!(parse_seconds(b"1e9999"), None);
    assert_eq!(parse_seconds(b"1e29"), Some(100_000_000_000_000_000_000_000_000_000_000_000_000));
    assert_eq!(parse_seconds(b"3.4e29"), Some(340_000_000_000_000_000_000_000_000_000_000_000_000));
    assert_eq!(parse_seconds(b"3.5e29"), None);
    assert_eq!(parse_seconds(b"1e30"), None);
    assert_eq!(parse_seconds(b"340282366920938463463374607431768211455e-9"), Some(u128::MAX));
    assert_eq!(parse_seconds(b"340282366920938463463374607431768211456e-9"), None);
    assert_eq!(
        parse_seconds(b"12345678901234567890123456789012345678901234567890e-20"),
        Some(123_456_789_012_345_678_901_234_567_890_123_456_789)
    );
}
