use fatherduck::error::QueryError;
use fatherduck::params::{get_params, param_kind, ParamKind};
use fatherduck::types::WireType;

#[test]
fn params_by_declared_type() {
    let declared = vec![
        WireType::Bool,
        WireType::Int2,
        WireType::Int4,
        WireType::Int8,
        WireType::Text,
        WireType::Varchar,
        WireType::Float4,
        WireType::Float8,
    ];
    let kinds = get_params(&declared, declared.len()).unwrap();
    assert_eq!(
        kinds,
        vec![
            ParamKind::Bool,
            ParamKind::Int2,
            ParamKind::Int4,
            ParamKind::Int8,
            ParamKind::Text,
            ParamKind::Text,
            ParamKind::Float4,
            ParamKind::Float8
        ]
    );
    assert_eq!(get_params(&declared, 0).unwrap(), vec![]);
}

#[test]
fn params_unsupported_type() {
    let declared = vec![WireType::Int4, WireType::Date, WireType::Other(1700)];
    match get_params(&declared, 3) {
        Err(QueryError::UnsupportedParameterType(t)) => assert_eq!(t, WireType::Date),
        other => panic!("unexpected {other:?}"),
    }
    assert_eq!(param_kind(WireType::Other(1700)), None);
    assert_eq!(param_kind(WireType::Unknown), None);
}

#[test]
fn params_undeclared_position() {
    let declared = vec![WireType::Int4];
    match get_params(&declared, 2) {
        Err(QueryError::UndeclaredParameter(i)) => assert_eq!(i, 1),
        other => panic!("unexpected {other:?}"),
    }
}
