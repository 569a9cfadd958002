use chrono::{Duration, NaiveDate};
use fatherduck::encode::{date_text, encode_row, encode_rows, encode_value, EngineValue, WireValue};
use fatherduck::error::QueryError;

fn text(w: &WireValue) -> &str {
    match w {
        WireValue::Text(t) => t.as_str(),
        other => panic!("not text: {other:?}"),
    }
}

#[test]
fn encode_null_bool_date_row() {
    let row = vec![EngineValue::Null, EngineValue::Boolean(true), EngineValue::Date32(19)];
    let wire = encode_row(&row).unwrap();
    assert_eq!(wire.len(), 3);
    assert!(matches!(wire[0], WireValue::Null));
    assert_eq!(text(&wire[1]), "true");
    assert_eq!(text(&wire[2]), "1970-01-20");
}

#[test]
fn encode_scalars() {
    assert_eq!(text(&encode_value(&EngineValue::Boolean(false)).unwrap()), "false");
    assert!(matches!(encode_value(&EngineValue::TinyInt(-3)).unwrap(), WireValue::Int1(-3)));
    assert!(matches!(encode_value(&EngineValue::SmallInt(300)).unwrap(), WireValue::Int2(300)));
    assert!(matches!(encode_value(&EngineValue::Int(-70000)).unwrap(), WireValue::Int4(-70000)));
    assert!(matches!(encode_value(&EngineValue::BigInt(1 << 40)).unwrap(), WireValue::Int8(v) if v == 1 << 40));
    let bits = 1.5f32.to_bits();
    assert!(matches!(encode_value(&EngineValue::Float(bits)).unwrap(), WireValue::Float4(b) if b == bits));
    let bits = (-2.25f64).to_bits();
    assert!(matches!(encode_value(&EngineValue::Double(bits)).unwrap(), WireValue::Float8(b) if b == bits));
    match encode_value(&EngineValue::Blob(vec![0, 255, 7])).unwrap() {
        WireValue::Bytes(b) => assert_eq!(b, vec![0, 255, 7]),
        other => panic!("unexpected {other:?}"),
    }
}

#[test]
fn encode_text_is_lossy_utf8() {
    let w = encode_value(&EngineValue::Text("héllo".as_bytes().to_vec())).unwrap();
    assert_eq!(text(&w), "héllo");
    let w = encode_value(&EngineValue::Text(vec![b'a', 0xff, b'b'])).unwrap();
    assert_eq!(text(&w), "a\u{fffd}b");
    let w = encode_value(&EngineValue::Text(vec![])).unwrap();
    assert_eq!(text(&w), "");
}

#[test]
fn encode_unsupported_value() {
    match encode_value(&EngineValue::Other("HugeInt".to_string())) {
        Err(QueryError::UnsupportedValue(k)) => assert_eq!(k, "HugeInt"),
        other => panic!("unexpected {other:?}"),
    }
    let row = vec![EngineValue::Int(1), EngineValue::Date32(i32::MAX), EngineValue::Other("x".to_string())];
    assert!(matches!(encode_row(&row), Err(QueryError::DateOutOfRange(i32::MAX))));
}

#[test]
fn encode_rows_keeps_order_and_count() {
    let rows: Vec<Vec<EngineValue>> =
        (0..50).map(|i| vec![EngineValue::Int(i), EngineValue::Date32(i * 1000)]).collect();
    let wire = encode_rows(&rows).unwrap();
    assert_eq!(wire.len(), rows.len());
    for (i, w) in wire.iter().enumerate() {
        assert!(matches!(w[0], WireValue::Int4(v) if v == i as i32));
        assert_eq!(text(&w[1]), date_text(i as i32 * 1000).unwrap());
    }
    assert_eq!(encode_rows(&Vec::new()).unwrap().len(), 0);
}

#[test]
fn encode_rows_fails_on_first_bad_row() {
    let rows = vec![
        vec![EngineValue::Int(1)],
        vec![EngineValue::Other("Interval".to_string())],
        vec![EngineValue::Date32(i32::MIN)],
    ];
    match encode_rows(&rows) {
        Err(QueryError::UnsupportedValue(k)) => assert_eq!(k, "Interval"),
        other => panic!("unexpected {other:?}"),
    }
}

fn reference_date(days: i32) -> String {
    let base = NaiveDate::from_ymd_opt(1970, 1, 1).unwrap();
    (base + Duration::days(days as i64)).format("%Y-%m-%d").to_string()
}

#[test]
fn date_matches_reference_library() {
    let mut days: i64 = -95_000_000;
    while days <= 95_000_000 {
        let d = days as i32;
        assert_eq!(date_text(d).unwrap(), reference_date(d), "{d}");
        days += 9_973;
    }
    for d in [-719_528, -719_162, -1, 0, 1, 59, 365, 10_957, 11_016, 2_932_896, 2_932_897] {
        assert_eq!(date_text(d).unwrap(), reference_date(d), "{d}");
    }
}

#[test]
fn date_examples() {
    assert_eq!(date_text(0).unwrap(), "1970-01-01");
    assert_eq!(date_text(-1).unwrap(), "1969-12-31");
    assert_eq!(date_text(11_016).unwrap(), "2000-02-29");
    assert_eq!(date_text(-719_162).unwrap(), "0001-01-01");
    assert_eq!(date_text(-719_163).unwrap(), "0000-12-31");
    assert_eq!(date_text(-719_529).unwrap(), "-0001-12-31");
    assert_eq!(date_text(2_932_897).unwrap(), "+10000-01-01");
}

#[test]
fn date_range_edges() {
    let min = NaiveDate::MIN.signed_duration_since(NaiveDate::from_ymd_opt(1970, 1, 1).unwrap()).num_days() as i32;
    let max = NaiveDate::MAX.signed_duration_since(NaiveDate::from_ymd_opt(1970, 1, 1).unwrap()).num_days() as i32;
    assert_eq!(date_text(min).unwrap(), "-262143-01-01");
    assert_eq!(date_text(max).unwrap(), "+262142-12-31");
    assert!(date_text(min - 1).is_none());
    assert!(date_text(max + 1).is_none());
    assert!(date_text(i32::MIN).is_none());
    assert!(matches!(encode_value(&EngineValue::Date32(max + 1)), Err(QueryError::DateOutOfRange(d)) if d == max + 1));
}
