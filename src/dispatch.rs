//! Statement dispatch: an ordered table of statement shapes, consulted first
//! match wins, that says how the engine runs a statement and how its
//! completion is reported.
use vstd::prelude::*;
use vstd::string::StringExecFns;

use crate::pattern::{pattern_is_match, regex_search};
use crate::types::{ColumnInfo, FieldFormat, WireType};

verus! {

pub const SELECT_STATEMENT: &'static str = r"^(?i)SELECT";

pub const DESCRIBE_STATEMENT: &'static str = r"^(?i)DESCRIBE\s+(\w+)";

pub const SHOW_DATABASES_STATEMENT: &'static str = r"^(?i)SHOW\s+DATABASES";

pub const SHOW_TABLES_STATEMENT: &'static str = r"^(?i)SHOW\s+TABLES";

pub const UNPIVOT_STATEMENT: &'static str = r"^(?i)(?:UNPIVOT|PIVOT_LONGER)\s+";

pub const INSERT_STATEMENT: &'static str = r"^(?i)INSERT\s+";

pub const UPDATE_STATEMENT: &'static str = r"^(?i)UPDATE\s+";

pub const DELETE_STATEMENT: &'static str = r"^(?i)DELETE\s+";

pub const TRUNCATE_STATEMENT: &'static str = r"^(?i)TRUNCATE\s+";

pub const CREATE_STATEMENT: &'static str =
    r"^(?i)CREATE\s+(?:OR\s+REPLACE\s+)?(?:TEMP(?:ORARY)?\s+)?(?:TABLE|VIEW|MACRO|FUNCTION|SEQUENCE)\b";

pub const CREATE_SCHEMA_STATEMENT: &'static str = r"^(?i)CREATE\s+SCHEMA\s+";

pub const CREATE_INDEX_STATEMENT: &'static str = r"^(?i)CREATE\s+(?:UNIQUE\s+)?INDEX\s+";

pub const DROP_STATEMENT: &'static str = r"^(?i)DROP\s+(?:TABLE|INDEX|SEQUENCE)\b";

pub const ALTER_STATEMENT: &'static str = r"^(?i)ALTER\s+(?:TABLE|VIEW)\b";

pub const BEGIN_STATEMENT: &'static str = r"^(?i)BEGIN(?:\s+TRANSACTION)?\b";

pub const END_TRANSACTION_STATEMENT: &'static str = r"^(?i)(?:COMMIT|ROLLBACK|ABORT)\b";

pub const DATABASE_STATEMENT: &'static str = r"^(?i)(?:DETACH|ATTACH|USE)\s+";

pub const SET_STATEMENT: &'static str = r"^(?i)(?:SET|RESET)\s+";

pub const ANALYZE_STATEMENT: &'static str = r"^(?i)ANALYZE";

pub const CALL_STATEMENT: &'static str = r"^(?i)CALL\s+";

pub const CHECKPOINT_STATEMENT: &'static str = r"^(?i)(?:FORCE\s+)?CHECKPOINT";

pub const COMMENT_STATEMENT: &'static str = r"^(?i)COMMENT\s+ON\s+";

pub const VACUUM_STATEMENT: &'static str = r"^(?i)VACUUM";

/// What a rule matches: statements in which a regular expression finds a
/// match, or every statement.
#[derive(Debug)]
pub enum StatementPattern {
    Regex(&'static str),
    Anything,
}

/// Where the column metadata of a row-producing statement comes from.
#[derive(Debug)]
pub enum DescribeType {
    /// From the engine, by an introspection query.
    Dynamic,
    /// From the rule itself.
    Const(Vec<ColumnInfo>),
}

/// How the engine runs a statement.
#[derive(Debug)]
pub enum ExecuteType {
    /// It produces rows.
    Query(DescribeType),
    /// It reports a count of affected rows.
    Execute,
}

/// One row of the dispatch table.
#[derive(Debug)]
pub struct ExecuteRule {
    pub pattern: StatementPattern,
    pub execute_type: ExecuteType,
    /// The completion tag reported for an `Execute` statement.
    pub tag: String,
    /// The object identifier reported with the tag, where there is one.
    pub oid: Option<u32>,
}

/// Whether a pattern matches the statement text.
pub open spec fn pattern_matches(p: StatementPattern, text: Seq<char>) -> bool {
    match p {
        StatementPattern::Regex(re) => regex_search(re@, text) == Some(true),
        StatementPattern::Anything => true,
    }
}

/// The first rule from index `i` on whose pattern matches `text`.
pub open spec fn first_match_from(rules: Seq<ExecuteRule>, text: Seq<char>, i: int) -> Option<
    int,
>
    decreases rules.len() - i,
{
    if i < 0 || i >= rules.len() {
        None
    } else if pattern_matches(rules[i].pattern, text) {
        Some(i)
    } else {
        first_match_from(rules, text, i + 1)
    }
}

/// The first rule of the table whose pattern matches `text`.
pub open spec fn first_match(rules: Seq<ExecuteRule>, text: Seq<char>) -> Option<int> {
    first_match_from(rules, text, 0)
}

/// Columns of wire type varchar in text format, with the given names.
pub open spec fn are_varchar_columns(columns: Seq<ColumnInfo>, names: Seq<Seq<char>>) -> bool {
    &&& columns.len() == names.len()
    &&& forall|i: int|
        0 <= i < columns.len() ==> (#[trigger] columns[i]).name@ == names[i]
            && columns[i].wire_type == WireType::Varchar && columns[i].format == FieldFormat::Text
}

/// A rule for row-producing statements of the given pattern, described by the engine.
pub open spec fn is_dynamic_rule(r: ExecuteRule, pattern: StatementPattern) -> bool {
    &&& r.pattern == pattern
    &&& r.execute_type matches ExecuteType::Query(DescribeType::Dynamic)
    &&& r.tag@ == Seq::<char>::empty()
    &&& r.oid is None
}

/// A rule for row-producing statements whose columns are known in advance.
pub open spec fn is_const_rule(r: ExecuteRule, pattern: &'static str, names: Seq<Seq<char>>) -> bool {
    &&& r.pattern == StatementPattern::Regex(pattern)
    &&& r.execute_type matches ExecuteType::Query(DescribeType::Const(columns))
        && are_varchar_columns(columns@, names)
    &&& r.tag@ == Seq::<char>::empty()
    &&& r.oid is None
}

/// A rule for statements that report a row count under `tag`.
pub open spec fn is_execute_rule(
    r: ExecuteRule,
    pattern: &'static str,
    tag: Seq<char>,
    oid: Option<u32>,
) -> bool {
    &&& r.pattern == StatementPattern::Regex(pattern)
    &&& r.execute_type is Execute
    &&& r.tag@ == tag
    &&& r.oid == oid
}

/// The dispatch table of the adapter, row by row.
pub open spec fn is_execute_rule_table(t: Seq<ExecuteRule>) -> bool {
    &&& t.len() == 24
    &&& is_dynamic_rule(t[0], StatementPattern::Regex(SELECT_STATEMENT))
    &&& is_const_rule(
        t[1],
        DESCRIBE_STATEMENT,
        seq!["column_name"@, "column_type"@, "null"@, "key"@, "default"@, "extra"@],
    )
    &&& is_const_rule(t[2], SHOW_DATABASES_STATEMENT, seq!["database_name"@])
    &&& is_const_rule(t[3], SHOW_TABLES_STATEMENT, seq!["name"@])
    &&& is_dynamic_rule(t[4], StatementPattern::Regex(UNPIVOT_STATEMENT))
    &&& is_execute_rule(t[5], INSERT_STATEMENT, "INSERT"@, Some(0))
    &&& is_execute_rule(t[6], UPDATE_STATEMENT, "UPDATE"@, None)
    &&& is_execute_rule(t[7], DELETE_STATEMENT, "DELETE"@, None)
    &&& is_execute_rule(t[8], TRUNCATE_STATEMENT, "TRUNCATE"@, None)
    &&& is_execute_rule(t[9], CREATE_STATEMENT, "CREATE"@, None)
    &&& is_execute_rule(t[10], CREATE_SCHEMA_STATEMENT, "CREATE"@, None)
    &&& is_execute_rule(t[11], CREATE_INDEX_STATEMENT, "CREATE"@, None)
    &&& is_execute_rule(t[12], DROP_STATEMENT, "DROP"@, None)
    &&& is_execute_rule(t[13], ALTER_STATEMENT, "ALTER"@, None)
    &&& is_execute_rule(t[14], BEGIN_STATEMENT, Seq::empty(), None)
    &&& is_execute_rule(t[15], END_TRANSACTION_STATEMENT, Seq::empty(), None)
    &&& is_execute_rule(t[16], DATABASE_STATEMENT, Seq::empty(), None)
    &&& is_execute_rule(t[17], SET_STATEMENT, Seq::empty(), None)
    &&& is_execute_rule(t[18], ANALYZE_STATEMENT, Seq::empty(), None)
    &&& is_execute_rule(t[19], CALL_STATEMENT, Seq::empty(), None)
    &&& is_execute_rule(t[20], CHECKPOINT_STATEMENT, Seq::empty(), None)
    &&& is_execute_rule(t[21], COMMENT_STATEMENT, Seq::empty(), None)
    &&& is_execute_rule(t[22], VACUUM_STATEMENT, Seq::empty(), None)
    &&& is_dynamic_rule(t[23], StatementPattern::Anything)
}

proof fn lemma_first_match_from(rules: Seq<ExecuteRule>, text: Seq<char>, i: int)
    requires
        0 <= i < rules.len(),
        rules.last().pattern is Anything,
    ensures
        first_match_from(rules, text, i) matches Some(k) && i <= k < rules.len()
            && pattern_matches(rules[k].pattern, text) && forall|j: int|
            i <= j < k ==> !pattern_matches(#[trigger] rules[j].pattern, text),
    decreases rules.len() - i,
{
    if !pattern_matches(rules[i].pattern, text) {
        lemma_first_match_from(rules, text, i + 1);
    }
}

/// Dispatch is total: a table that ends in a rule matching anything gives
/// every statement a rule, and the rule it gives is the first whose pattern
/// matches, so a statement that an earlier rule matches never reaches the
/// last one.
pub proof fn lemma_dispatch_total(rules: Seq<ExecuteRule>, text: Seq<char>)
    requires
        rules.len() > 0,
        rules.last().pattern is Anything,
    ensures
        first_match(rules, text) matches Some(k) && 0 <= k < rules.len() && pattern_matches(
            rules[k].pattern,
            text,
        ) && forall|j: int| 0 <= j < k ==> !pattern_matches(#[trigger] rules[j].pattern, text),
        forall|j: int|
            0 <= j < rules.len() && pattern_matches(#[trigger] rules[j].pattern, text)
                ==> first_match(rules, text)->0 <= j,
{
    lemma_first_match_from(rules, text, 0);
}

fn dynamic_rule(pattern: StatementPattern) -> (r: ExecuteRule)
    ensures
        is_dynamic_rule(r, pattern),
{
    ExecuteRule {
        pattern,
        execute_type: ExecuteType::Query(DescribeType::Dynamic),
        tag: String::new(),
        oid: None,
    }
}

fn varchar_column(name: &str) -> (r: ColumnInfo)
    ensures
        r.name@ == name@,
        r.wire_type == WireType::Varchar,
        r.format == FieldFormat::Text,
{
    ColumnInfo { name: String::from_str(name), wire_type: WireType::Varchar, format: FieldFormat::Text }
}

fn const_rule(pattern: &'static str, columns: Vec<ColumnInfo>) -> (r: ExecuteRule)
    ensures
        r.pattern == StatementPattern::Regex(pattern),
        r.execute_type == ExecuteType::Query(DescribeType::Const(columns)),
        r.tag@ == Seq::<char>::empty(),
        r.oid is None,
{
    ExecuteRule {
        pattern: StatementPattern::Regex(pattern),
        execute_type: ExecuteType::Query(DescribeType::Const(columns)),
        tag: String::new(),
        oid: None,
    }
}

fn execute_rule(pattern: &'static str, tag: &str, oid: Option<u32>) -> (r: ExecuteRule)
    ensures
        is_execute_rule(r, pattern, tag@, oid),
{
    ExecuteRule {
        pattern: StatementPattern::Regex(pattern),
        execute_type: ExecuteType::Execute,
        tag: String::from_str(tag),
        oid,
    }
}

/// The dispatch table, built once and consulted for every statement.
pub struct ExecuteRules {
    rules: Vec<ExecuteRule>,
}

impl View for ExecuteRules {
    type V = Seq<ExecuteRule>;

    closed spec fn view(&self) -> Seq<ExecuteRule> {
        self.rules@
    }
}

impl ExecuteRules {
    /// Builds the table.
    pub fn new() -> (r: ExecuteRules)
        ensures
            is_execute_rule_table(r@),
    {
        proof {
            reveal_strlit("");
            assert(""@ =~= Seq::<char>::empty());
        }
        let mut rules: Vec<ExecuteRule> = Vec::new();
        rules.push(dynamic_rule(StatementPattern::Regex(SELECT_STATEMENT)));
        let mut describe: Vec<ColumnInfo> = Vec::new();
        describe.push(varchar_column("column_name"));
        describe.push(varchar_column("column_type"));
        describe.push(varchar_column("null"));
        describe.push(varchar_column("key"));
        describe.push(varchar_column("default"));
        describe.push(varchar_column("extra"));
        assert(are_varchar_columns(
            describe@,
            seq!["column_name"@, "column_type"@, "null"@, "key"@, "default"@, "extra"@],
        ));
        rules.push(const_rule(DESCRIBE_STATEMENT, describe));
        let mut databases: Vec<ColumnInfo> = Vec::new();
        databases.push(varchar_column("database_name"));
        assert(are_varchar_columns(databases@, seq!["database_name"@]));
        rules.push(const_rule(SHOW_DATABASES_STATEMENT, databases));
        let mut tables: Vec<ColumnInfo> = Vec::new();
        tables.push(varchar_column("name"));
        assert(are_varchar_columns(tables@, seq!["name"@]));
        rules.push(const_rule(SHOW_TABLES_STATEMENT, tables));
        rules.push(dynamic_rule(StatementPattern::Regex(UNPIVOT_STATEMENT)));
        rules.push(execute_rule(INSERT_STATEMENT, "INSERT", Some(0)));
        rules.push(execute_rule(UPDATE_STATEMENT, "UPDATE", None));
        rules.push(execute_rule(DELETE_STATEMENT, "DELETE", None));
        rules.push(execute_rule(TRUNCATE_STATEMENT, "TRUNCATE", None));
        rules.push(execute_rule(CREATE_STATEMENT, "CREATE", None));
        rules.push(execute_rule(CREATE_SCHEMA_STATEMENT, "CREATE", None));
        rules.push(execute_rule(CREATE_INDEX_STATEMENT, "CREATE", None));
        rules.push(execute_rule(DROP_STATEMENT, "DROP", None));
        rules.push(execute_rule(ALTER_STATEMENT, "ALTER", None));
        rules.push(execute_rule(BEGIN_STATEMENT, "", None));
        rules.push(execute_rule(END_TRANSACTION_STATEMENT, "", None));
        rules.push(execute_rule(DATABASE_STATEMENT, "", None));
        rules.push(execute_rule(SET_STATEMENT, "", None));
        rules.push(execute_rule(ANALYZE_STATEMENT, "", None));
        rules.push(execute_rule(CALL_STATEMENT, "", None));
        rules.push(execute_rule(CHECKPOINT_STATEMENT, "", None));
        rules.push(execute_rule(COMMENT_STATEMENT, "", None));
        rules.push(execute_rule(VACUUM_STATEMENT, "", None));
        rules.push(dynamic_rule(StatementPattern::Anything));
        ExecuteRules { rules }
    }

    /// The number of rules.
    pub fn len(&self) -> (r: usize)
        ensures
            r == self@.len(),
    {
        self.rules.len()
    }

    /// The rule at position `i`.
    pub fn rule(&self, i: usize) -> (r: &ExecuteRule)
        requires
            i < self@.len(),
        ensures
            *r == self@[i as int],
    {
        &self.rules[i]
    }

    /// The position of the first rule whose pattern matches `sql`. A pattern
    /// that the regular expression engine cannot evaluate counts as not
    /// matching.
    pub fn find_rule(&self, sql: &str) -> (r: Option<usize>)
        ensures
            match first_match(self@, sql@) {
                Some(k) => 0 <= k < self@.len() && r == Some(k as usize),
                None => r is None,
            },
            r matches Some(i) ==> first_match(self@, sql@) == Some(i as int),
    {
        let mut i: usize = 0;
        while i < self.rules.len()
            invariant
                i <= self@.len(),
                first_match(self@, sql@) == first_match_from(self@, sql@, i as int),
            decreases self@.len() - i,
        {
            let matched = match &self.rules[i].pattern {
                StatementPattern::Regex(re) => match pattern_is_match(re, sql) {
                    Some(found) => found,
                    None => false,
                },
                StatementPattern::Anything => true,
            };
            if matched {
                return Some(i);
            }
            i = i + 1;
        }
        None
    }

    /// The rule that decides how `sql` is run: the first whose pattern matches.
    pub fn classify(&self, sql: &str) -> (r: Option<&ExecuteRule>)
        ensures
            match first_match(self@, sql@) {
                Some(k) => r is Some && *r->0 == self@[k],
                None => r is None,
            },
    {
        match self.find_rule(sql) {
            Some(i) => {
                let rule = &self.rules[i];
                Some(rule)
            },
            None => None,
        }
    }
}

} // verus!
