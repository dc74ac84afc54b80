use sqltight::decimal::format_i64;
use sqltight::{blob, integer, text, Blob, Error, Int, Param, Real, Text, Value};

#[test]
fn constructors_hold_what_they_are_given() {
    assert_eq!(text("email"), Text(Some("email".to_string())));
    assert_eq!(integer(1), Int(Some(1)));
    assert_eq!(blob(vec![1, 2, 3]), Blob(Some(vec![1, 2, 3])));
    assert_eq!(Real::from_bits(2.5f64.to_bits()), Real(Some(0x4004_0000_0000_0000)));
}

#[test]
fn defaults_hold_nothing() {
    assert_eq!(Text::default(), Text(None));
    assert_eq!(Int::default(), Int(None));
    assert_eq!(Real::default(), Real(None));
    assert_eq!(Blob::default(), Blob(None));
}

#[test]
fn conversions_keep_the_content() {
    assert_eq!(Text::from("a".to_string()), text("a"));
    assert_eq!(Text::from(None::<String>), Text(None));
    assert_eq!(Int::from(7), integer(7));
    assert_eq!(Int::from(Some(7)), integer(7));
    assert_eq!(Blob::from(vec![9u8]), blob(vec![9]));
    assert_eq!(Blob::from(None::<Vec<u8>>), Blob(None));
    assert_eq!(Value::from(integer(7)), Value::Int(Int(Some(7))));
    assert_eq!(Value::from(text("a")), Value::Text(Text(Some("a".to_string()))));
    assert_eq!(Value::from(Real(Some(1))), Value::Real(Real(Some(1))));
    assert_eq!(Value::from(blob(vec![])), Value::Blob(Blob(Some(vec![]))));
    let into: Value = integer(3).into();
    assert_eq!(into, Value::Int(integer(3)));
}

#[test]
fn a_value_reads_as_its_own_type() {
    assert_eq!(Text::from_value(Value::Text(text("a"))), Some(text("a")));
    assert_eq!(Int::from_value(Value::Int(integer(5))), Some(integer(5)));
    assert_eq!(Real::from_value(Value::Real(Real(Some(8)))), Some(Real(Some(8))));
    assert_eq!(Blob::from_value(Value::Blob(blob(vec![1]))), Some(blob(vec![1])));
}

#[test]
fn null_reads_as_the_absent_form_of_any_type() {
    assert_eq!(Text::from_value(Value::Null), Some(Text(None)));
    assert_eq!(Int::from_value(Value::Null), Some(Int(None)));
    assert_eq!(Real::from_value(Value::Null), Some(Real(None)));
    assert_eq!(Blob::from_value(Value::Null), Some(Blob(None)));
}

#[test]
fn a_value_does_not_read_as_another_type() {
    assert_eq!(Text::from_value(Value::Int(integer(5))), None);
    assert_eq!(Int::from_value(Value::Text(text("5"))), None);
    assert_eq!(Real::from_value(Value::Blob(blob(vec![]))), None);
    assert_eq!(Blob::from_value(Value::Real(Real(None))), None);
    assert_eq!(Int::from_value(Value::Int(Int(None))), Some(Int(None)));
}

#[test]
fn values_are_shown_as_they_are() {
    assert_eq!(text("content 2").to_string(), "content 2");
    assert_eq!(Text(None).to_string(), "");
    assert_eq!(integer(42).to_string(), "42");
    assert_eq!(Int(None).to_string(), "");
}

#[test]
fn integers_are_written_in_decimal() {
    assert_eq!(format_i64(0), "0");
    assert_eq!(format_i64(7), "7");
    assert_eq!(format_i64(10), "10");
    assert_eq!(format_i64(-1), "-1");
    assert_eq!(format_i64(1234567890), "1234567890");
    assert_eq!(format_i64(i64::MAX), "9223372036854775807");
    assert_eq!(format_i64(i64::MIN), "-9223372036854775808");
    for n in [-1000i64, -99, -10, 5, 99, 100, 101, 65536] {
        assert_eq!(format_i64(n), format!("{n}"));
    }
}

#[test]
fn a_value_is_bound_in_the_form_of_its_type() {
    assert_eq!(Value::Text(text("héllo")).to_param(), Ok(Param::Text { text: "héllo", len: 6 }));
    assert_eq!(Value::Int(integer(-3)).to_param(), Ok(Param::Int(-3)));
    assert_eq!(Value::Real(Real(Some(17))).to_param(), Ok(Param::Real(17)));
    let bytes = vec![0u8, 1, 2];
    assert_eq!(
        Value::Blob(blob(bytes.clone())).to_param(),
        Ok(Param::Blob { bytes: &bytes, len: 3 })
    );
    assert_eq!(Value::Text(text("")).to_param(), Ok(Param::Text { text: "", len: 0 }));
}

#[test]
fn every_form_of_no_value_is_bound_as_null() {
    for value in [
        Value::Null,
        Value::Text(Text(None)),
        Value::Int(Int(None)),
        Value::Real(Real(None)),
        Value::Blob(Blob(None)),
    ] {
        assert_eq!(value.to_param(), Ok(Param::Null));
    }
}

#[test]
fn a_blob_too_long_for_the_engine_is_refused() {
    let long = vec![0u8; i32::MAX as usize + 1];
    assert_eq!(Value::Blob(blob(long)).to_param(), Err(Error::TryFromInt));
    let fits = vec![0u8; i32::MAX as usize];
    assert!(matches!(
        Value::Blob(blob(fits)).to_param(),
        Ok(Param::Blob { len: i32::MAX, .. })
    ));
}
