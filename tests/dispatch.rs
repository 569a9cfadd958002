use fatherduck::dispatch::{DescribeType, ExecuteRules, ExecuteType, StatementPattern};
use fatherduck::parser::completion_tag;
use fatherduck::types::{FieldFormat, WireType};

fn tag_of(rules: &ExecuteRules, sql: &str) -> (bool, String, Option<u32>) {
    let rule = rules.classify(sql).expect("every statement has a rule");
    (matches!(rule.execute_type, ExecuteType::Execute), rule.tag.clone(), rule.oid)
}

#[test]
fn classify_insert_is_execute_with_oid() {
    let rules = ExecuteRules::new();
    let rule = rules.classify("INSERT INTO t VALUES (1)").unwrap();
    assert!(matches!(rule.execute_type, ExecuteType::Execute));
    assert_eq!(rule.tag, "INSERT");
    assert_eq!(rule.oid, Some(0));
}

#[test]
fn classify_select_is_dynamic_query() {
    let rules = ExecuteRules::new();
    let rule = rules.classify("SELECT 1").unwrap();
    assert!(matches!(rule.execute_type, ExecuteType::Query(DescribeType::Dynamic)));
    assert_eq!(rule.tag, "");
    assert_eq!(rule.oid, None);
    assert_eq!(rules.find_rule("select 1"), Some(0));
}

#[test]
fn classify_tags() {
    let rules = ExecuteRules::new();
    let cases: [(&str, &str); 16] = [
        ("update t set a = 1", "UPDATE"),
        ("DELETE FROM t", "DELETE"),
        ("TRUNCATE t", "TRUNCATE"),
        ("CREATE TABLE t (a INT)", "CREATE"),
        ("create or replace temp view v as select 1", "CREATE"),
        ("CREATE TEMPORARY TABLE t (a INT)", "CREATE"),
        ("CREATE MACRO m(a) AS a", "CREATE"),
        ("CREATE SCHEMA IF NOT EXISTS s", "CREATE"),
        ("CREATE UNIQUE INDEX i ON t(a)", "CREATE"),
        ("DROP TABLE t", "DROP"),
        ("ALTER TABLE t ADD COLUMN b INT", "ALTER"),
        ("BEGIN TRANSACTION", ""),
        ("commit", ""),
        ("ATTACH 'x.db' AS x", ""),
        ("SET threads = 4", ""),
        ("VACUUM", ""),
    ];
    for (sql, tag) in cases {
        let (execute, t, oid) = tag_of(&rules, sql);
        assert!(execute, "{sql}");
        assert_eq!(t, tag, "{sql}");
        assert_eq!(oid, None, "{sql}");
    }
}

#[test]
fn classify_create_needs_an_object_kind() {
    let rules = ExecuteRules::new();
    let (execute, _, _) = tag_of(&rules, "CREATE SECRET s (TYPE s3)");
    assert!(!execute);
    let (execute, _, _) = tag_of(&rules, "SELECT 'VIEW'");
    assert!(!execute);
}

#[test]
fn classify_unknown_falls_to_catch_all() {
    let rules = ExecuteRules::new();
    let last = rules.len() - 1;
    assert_eq!(rules.find_rule("PRAGMA version"), Some(last));
    assert_eq!(rules.find_rule(""), Some(last));
    assert!(matches!(rules.rule(last).pattern, StatementPattern::Anything));
    let rule = rules.classify("WITH x AS (SELECT 1) SELECT * FROM x").unwrap();
    assert!(matches!(rule.execute_type, ExecuteType::Query(DescribeType::Dynamic)));
}

#[test]
fn classify_listings_have_fixed_columns() {
    let rules = ExecuteRules::new();
    let rule = rules.classify("SHOW TABLES").unwrap();
    match &rule.execute_type {
        ExecuteType::Query(DescribeType::Const(cols)) => {
            assert_eq!(cols.len(), 1);
            assert_eq!(cols[0].name, "name");
            assert_eq!(cols[0].wire_type, WireType::Varchar);
            assert_eq!(cols[0].format, FieldFormat::Text);
        }
        other => panic!("unexpected {other:?}"),
    }
    let rule = rules.classify("describe t").unwrap();
    match &rule.execute_type {
        ExecuteType::Query(DescribeType::Const(cols)) => {
            let names: Vec<&str> = cols.iter().map(|c| c.name.as_str()).collect();
            assert_eq!(names, ["column_name", "column_type", "null", "key", "default", "extra"]);
        }
        other => panic!("unexpected {other:?}"),
    }
    let rule = rules.classify("SHOW DATABASES").unwrap();
    match &rule.execute_type {
        ExecuteType::Query(DescribeType::Const(cols)) => assert_eq!(cols[0].name, "database_name"),
        other => panic!("unexpected {other:?}"),
    }
}

#[test]
fn completion_tag_carries_rule_and_count() {
    let rules = ExecuteRules::new();
    let tag = completion_tag(rules.classify("INSERT INTO t VALUES (1), (2)").unwrap(), 2);
    assert_eq!(tag.tag, "INSERT");
    assert_eq!(tag.rows, 2);
    assert_eq!(tag.oid, Some(0));
    let tag = completion_tag(rules.classify("DELETE FROM t").unwrap(), 7);
    assert_eq!(tag.tag, "DELETE");
    assert_eq!(tag.rows, 7);
    assert_eq!(tag.oid, None);
}
