//! Dialect rewriting: an ordered pipeline of pattern substitutions that turns
//! client statements the engine does not understand into ones it does.
use vstd::prelude::*;
use vstd::string::StringExecFns;

use crate::dispatch::{ExecuteRule, ExecuteRules, first_match, is_execute_rule_table, lemma_dispatch_total};
use crate::pattern::{pattern_replace_all, regex_replace_all, regex_search};
use crate::text::{trim, trimmed};

verus! {

/// A cast of a quoted relation name to `regclass`.
pub const REGCLASS_PATTERN: &'static str = r"(?i)'(\w+)'::regclass";

/// Looks the relation up by name instead.
pub const REGCLASS_REPLACEMENT: &'static str = r"(SELECT oid FROM pg_class WHERE relname = '$1')";

/// The isolation level question.
pub const ISOLATION_PATTERN: &'static str = r"^(?i)SHOW\s+TRANSACTION\s+ISOLATION\s+LEVEL";

/// Answered by a constant.
pub const ISOLATION_REPLACEMENT: &'static str = r"SELECT 'read committed' AS transaction_isolation";

/// `SHOW <name>`, except the listings `SHOW DATABASES` and `SHOW TABLES`.
pub const SHOW_PATTERN: &'static str = r"^(?i)SHOW\s+(?!(?:DATABASES|TABLES)\b)(\w+)";

/// Reads the engine's runtime setting of that name.
pub const SHOW_REPLACEMENT: &'static str = r"SELECT current_setting('$1') AS $1";

/// `SET <name> = <word>` where the word is not a number.
pub const SET_PATTERN: &'static str = r"^(?i)SET\s+(\w+)\s*=\s*(?!\d+\b)(\w+)\s*(;?)\s*$";

/// Quotes the word as a string literal.
pub const SET_REPLACEMENT: &'static str = r"SET $1 = '$2'$3";

/// `CALL <name>`.
pub const CALL_PATTERN: &'static str = r"^(?i)CALL\s+(\w+)";

/// Selects from the table function of that name.
pub const CALL_REPLACEMENT: &'static str = r"SELECT * FROM $1";

/// One step of the pipeline: every match of `pattern` is replaced by `replacement`.
pub struct RewriteRule {
    pub pattern: &'static str,
    pub replacement: &'static str,
}

/// The pipeline, in the order its rules apply.
pub open spec fn rewrite_rule_table() -> Seq<RewriteRule> {
    seq![
        RewriteRule { pattern: REGCLASS_PATTERN, replacement: REGCLASS_REPLACEMENT },
        RewriteRule { pattern: ISOLATION_PATTERN, replacement: ISOLATION_REPLACEMENT },
        RewriteRule { pattern: SHOW_PATTERN, replacement: SHOW_REPLACEMENT },
        RewriteRule { pattern: SET_PATTERN, replacement: SET_REPLACEMENT },
        RewriteRule { pattern: CALL_PATTERN, replacement: CALL_REPLACEMENT },
    ]
}

/// One rule applied to `text`. A rule the pattern engine cannot apply leaves
/// the text as it is.
pub open spec fn apply_rule(text: Seq<char>, rule: RewriteRule) -> Seq<char> {
    match regex_replace_all(rule.pattern@, text, rule.replacement@) {
        Some(t) => t,
        None => text,
    }
}

/// The first `n` rules of `rules` applied in order, each to the output of the one before.
pub open spec fn apply_rules(text: Seq<char>, rules: Seq<RewriteRule>, n: nat) -> Seq<char>
    decreases n,
{
    if n == 0 {
        text
    } else {
        apply_rule(apply_rules(text, rules, (n - 1) as nat), rules[n - 1])
    }
}

/// What the engine is given for the client statement `sql`.
pub open spec fn rewritten(sql: Seq<char>) -> Seq<char> {
    apply_rules(trimmed(sql), rewrite_rule_table(), rewrite_rule_table().len())
}

/// No rule of the pipeline finds a match in `text`.
pub open spec fn matches_no_rewrite_rule(text: Seq<char>) -> bool {
    forall|i: int|
        0 <= i < rewrite_rule_table().len() ==> regex_search(
            #[trigger] rewrite_rule_table()[i].pattern@,
            text,
        ) == Some(false)
}

/// Rewriting is a function of the statement text: equal texts are rewritten alike.
pub proof fn lemma_rewrite_deterministic(a: Seq<char>, b: Seq<char>)
    requires
        a == b,
    ensures
        rewritten(a) == rewritten(b),
{
}

/// The pipeline as data.
pub fn rewrite_rules() -> (r: Vec<RewriteRule>)
    ensures
        r@ == rewrite_rule_table(),
{
    let mut r: Vec<RewriteRule> = Vec::new();
    r.push(RewriteRule { pattern: REGCLASS_PATTERN, replacement: REGCLASS_REPLACEMENT });
    r.push(RewriteRule { pattern: ISOLATION_PATTERN, replacement: ISOLATION_REPLACEMENT });
    r.push(RewriteRule { pattern: SHOW_PATTERN, replacement: SHOW_REPLACEMENT });
    r.push(RewriteRule { pattern: SET_PATTERN, replacement: SET_REPLACEMENT });
    r.push(RewriteRule { pattern: CALL_PATTERN, replacement: CALL_REPLACEMENT });
    assert(r@ =~= rewrite_rule_table());
    r
}

/// Trims `sql` and runs it through the rewrite pipeline. Text that no rule
/// matches, and that has no white space at either end, comes back unchanged.
pub fn rewrite_query(sql: &str) -> (r: String)
    ensures
        r@ == rewritten(sql@),
        (trimmed(sql@) == sql@ && matches_no_rewrite_rule(sql@)) ==> r@ == sql@,
{
    let rules = rewrite_rules();
    let mut acc = String::from_str(trim(sql));
    let ghost start = acc@;
    let mut i: usize = 0;
    while i < rules.len()
        invariant
            i <= rules@.len(),
            rules@ == rewrite_rule_table(),
            start == trimmed(sql@),
            acc@ == apply_rules(start, rules@, i as nat),
            (start == sql@ && matches_no_rewrite_rule(sql@)) ==> acc@ == sql@,
        decreases rules@.len() - i,
    {
        let rule = &rules[i];
        proof {
            if start == sql@ && matches_no_rewrite_rule(sql@) {
                assert(regex_search(rewrite_rule_table()[i as int].pattern@, sql@) == Some(false));
            }
        }
        match pattern_replace_all(rule.pattern, acc.as_str(), rule.replacement) {
            Some(s) => {
                acc = s;
            },
            None => {},
        }
        i = i + 1;
    }
    acc
}

/// A statement as the extended flow keeps it: the rewritten text, and the
/// position of the dispatch rule that classified it.
#[derive(Debug, Clone)]
pub struct ParsedStatement {
    pub statement: String,
    pub rule: usize,
}

/// Turns client statements into engine statements, and classifies them.
pub struct FatherDuckQueryParser {
    rules: ExecuteRules,
}

/// The completion a statement that reports a row count answers with.
#[derive(Debug)]
pub struct CompletionTag {
    pub tag: String,
    pub rows: usize,
    pub oid: Option<u32>,
}

/// The completion tag for a statement of `rule` that affected `rows` rows.
pub fn completion_tag(rule: &ExecuteRule, rows: usize) -> (r: CompletionTag)
    ensures
        r.tag@ == rule.tag@,
        r.rows == rows,
        r.oid == rule.oid,
{
    CompletionTag { tag: rule.tag.clone(), rows, oid: rule.oid }
}

impl FatherDuckQueryParser {
    /// The parser's dispatch table is the adapter's table.
    pub closed spec fn wf(&self) -> bool {
        is_execute_rule_table(self.rules@)
    }

    /// The rules, in the order they are consulted.
    pub closed spec fn rule_table(&self) -> Seq<ExecuteRule> {
        self.rules@
    }

    pub fn new() -> (r: FatherDuckQueryParser)
        ensures
            r.wf(),
    {
        FatherDuckQueryParser { rules: ExecuteRules::new() }
    }

    /// The dispatch table.
    pub fn rules(&self) -> (r: &ExecuteRules)
        ensures
            r@ == self.rule_table(),
    {
        &self.rules
    }

    /// The dispatch rule at position `i`.
    pub fn rule(&self, i: usize) -> (r: &ExecuteRule)
        requires
            i < self.rule_table().len(),
        ensures
            *r == self.rule_table()[i as int],
    {
        self.rules.rule(i)
    }

    /// Rewrites `sql` for the engine and classifies the result: the rule is
    /// the first of the table whose pattern matches the rewritten text. Every
    /// text gets a rule, since the table ends in one that matches anything.
    pub fn parse_sql(&self, sql: &str) -> (r: ParsedStatement)
        requires
            self.wf(),
        ensures
            r.statement@ == rewritten(sql@),
            first_match(self.rule_table(), r.statement@) == Some(r.rule as int),
            r.rule < self.rule_table().len(),
    {
        let statement = rewrite_query(sql);
        proof {
            lemma_dispatch_total(self.rules@, statement@);
        }
        match self.rules.find_rule(statement.as_str()) {
            Some(rule) => ParsedStatement { statement, rule },
            // Never taken: the last rule matches every text.
            None => ParsedStatement { statement, rule: self.rules.len() - 1 },
        }
    }
}

} // verus!
