use fatherduck::error::QueryError;
use fatherduck::types::{into_arrow_type, into_pg_type, EngineType, WireType};

#[test]
fn pg_type_of_scalars() {
    let cases = [
        (EngineType::Null, WireType::Unknown),
        (EngineType::Boolean, WireType::Bool),
        (EngineType::Int8, WireType::Char),
        (EngineType::UInt8, WireType::Char),
        (EngineType::Int16, WireType::Int2),
        (EngineType::UInt16, WireType::Int2),
        (EngineType::Int32, WireType::Int4),
        (EngineType::UInt32, WireType::Int4),
        (EngineType::Int64, WireType::Int8),
        (EngineType::UInt64, WireType::Int8),
        (EngineType::Timestamp, WireType::Timestamp),
        (EngineType::Time32, WireType::Time),
        (EngineType::Time64, WireType::Time),
        (EngineType::Date32, WireType::Date),
        (EngineType::Date64, WireType::Date),
        (EngineType::Binary, WireType::Bytea),
        (EngineType::Float32, WireType::Float4),
        (EngineType::Float64, WireType::Float8),
        (EngineType::Utf8, WireType::Varchar),
    ];
    for (t, w) in cases {
        assert_eq!(into_pg_type(&t).unwrap(), w, "{t:?}");
        assert_eq!(into_pg_type(&t).unwrap(), into_pg_type(&t).unwrap());
    }
}

#[test]
fn pg_type_of_lists() {
    let list = |t: EngineType| EngineType::List(Box::new(t));
    assert_eq!(into_pg_type(&list(EngineType::Boolean)).unwrap(), WireType::BoolArray);
    assert_eq!(into_pg_type(&list(EngineType::UInt8)).unwrap(), WireType::CharArray);
    assert_eq!(into_pg_type(&list(EngineType::Int16)).unwrap(), WireType::Int2Array);
    assert_eq!(into_pg_type(&list(EngineType::Int32)).unwrap(), WireType::Int4Array);
    assert_eq!(into_pg_type(&list(EngineType::UInt64)).unwrap(), WireType::Int8Array);
    assert_eq!(into_pg_type(&list(EngineType::Timestamp)).unwrap(), WireType::TimestampArray);
    assert_eq!(into_pg_type(&list(EngineType::Time64)).unwrap(), WireType::TimeArray);
    assert_eq!(into_pg_type(&list(EngineType::Date32)).unwrap(), WireType::DateArray);
    assert_eq!(into_pg_type(&list(EngineType::Binary)).unwrap(), WireType::ByteaArray);
    assert_eq!(into_pg_type(&list(EngineType::Float32)).unwrap(), WireType::Float4Array);
    assert_eq!(into_pg_type(&list(EngineType::Float64)).unwrap(), WireType::Float8Array);
    assert_eq!(into_pg_type(&list(EngineType::Utf8)).unwrap(), WireType::VarcharArray);
}

#[test]
fn pg_type_unsupported_names_the_type() {
    match into_pg_type(&EngineType::Other("Decimal128(10, 2)".to_string())) {
        Err(QueryError::UnsupportedDatatype(EngineType::Other(n))) => assert_eq!(n, "Decimal128(10, 2)"),
        other => panic!("unexpected {other:?}"),
    }
    let nested = EngineType::List(Box::new(EngineType::List(Box::new(EngineType::Int32))));
    match into_pg_type(&nested) {
        Err(QueryError::UnsupportedListDatatype(EngineType::List(inner))) => {
            assert!(matches!(*inner, EngineType::Int32))
        }
        other => panic!("unexpected {other:?}"),
    }
    match into_pg_type(&EngineType::List(Box::new(EngineType::Null))) {
        Err(QueryError::UnsupportedListDatatype(EngineType::Null)) => {}
        other => panic!("unexpected {other:?}"),
    }
}

#[test]
fn arrow_type_of_names() {
    let cases = [
        ("BIGINT", WireType::Int8),
        ("BLOB", WireType::Bytea),
        ("BOOLEAN", WireType::Bool),
        ("DATE", WireType::Date),
        ("DOUBLE", WireType::Float8),
        ("FLOAT", WireType::Float4),
        ("INTEGER", WireType::Int4),
        ("SMALLINT", WireType::Int2),
        ("TINYINT", WireType::Char),
        ("VARCHAR", WireType::Varchar),
    ];
    for (name, w) in cases {
        assert_eq!(into_pg_type(&into_arrow_type(name).unwrap()).unwrap(), w, "{name}");
    }
    assert!(matches!(into_arrow_type("DATE").unwrap(), EngineType::Date32));
}

#[test]
fn arrow_type_unknown_name() {
    for name in ["HUGEINT", "varchar", "", "BIGINT "] {
        match into_arrow_type(name) {
            Err(QueryError::UnsupportedTypeName(n)) => assert_eq!(n, name),
            other => panic!("unexpected {other:?}"),
        }
    }
}
