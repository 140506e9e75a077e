//! SQL statements as data: the text of a statement and the values bound
//! to its numbered parameters. Executing them is left to the caller.

use vstd::prelude::*;
use vstd::string::StringExecFns;

verus! {

/// A value bound to a statement parameter.
#[derive(Debug, Clone, PartialEq, Eq)]
pub enum SqlValue {
    Null,
    Integer(i64),
    Text(String),
}

/// The mathematical model of a bound value.
pub enum SqlParam {
    Null,
    Integer(int),
    Text(Seq<char>),
}

impl DeepView for SqlValue {
    type V = SqlParam;

    open spec fn deep_view(&self) -> SqlParam {
        match self {
            SqlValue::Null => SqlParam::Null,
            SqlValue::Integer(i) => SqlParam::Integer(*i as int),
            SqlValue::Text(s) => SqlParam::Text(s@),
        }
    }
}

/// One statement to execute: its text and its parameters, in order.
#[derive(Debug, Clone, PartialEq, Eq)]
pub struct SqlStatement {
    pub sql: String,
    pub params: Vec<SqlValue>,
}

/// The mathematical model of a statement.
pub struct StatementModel {
    pub sql: Seq<char>,
    pub params: Seq<SqlParam>,
}

impl DeepView for SqlStatement {
    type V = StatementModel;

    open spec fn deep_view(&self) -> StatementModel {
        StatementModel { sql: self.sql@, params: self.params.deep_view() }
    }
}

/// The model of an optional text value: SQL `NULL` when absent.
pub open spec fn opt_text_param(v: Option<Seq<char>>) -> SqlParam {
    match v {
        Some(s) => SqlParam::Text(s),
        None => SqlParam::Null,
    }
}

/// The model of an optional string.
pub open spec fn opt_view(v: Option<String>) -> Option<Seq<char>> {
    match v {
        Some(s) => Some(s@),
        None => None,
    }
}

/// An integer parameter.
pub fn integer(i: i64) -> (v: SqlValue)
    ensures
        v.deep_view() == SqlParam::Integer(i as int),
{
    SqlValue::Integer(i)
}

/// A text parameter holding a copy of `s`.
pub fn text(s: &String) -> (v: SqlValue)
    ensures
        v.deep_view() == SqlParam::Text(s@),
{
    SqlValue::Text(s.clone())
}

/// A text parameter, or `NULL` when `s` is absent.
pub fn opt_text(s: &Option<String>) -> (v: SqlValue)
    ensures
        v.deep_view() == opt_text_param(opt_view(*s)),
{
    match s {
        Some(t) => SqlValue::Text(t.clone()),
        None => SqlValue::Null,
    }
}

/// The statement that removes every row of `table` for a game.
pub open spec fn delete_for_game_model(table: Seq<char>, game_id: i64) -> StatementModel {
    StatementModel {
        sql: "DELETE FROM "@ + table + " WHERE game_id = ?1"@,
        params: seq![SqlParam::Integer(game_id as int)],
    }
}

/// Builds the statement that removes every row of `table` for a game.
pub fn delete_for_game(table: &str, game_id: i64) -> (st: SqlStatement)
    ensures
        st.deep_view() == delete_for_game_model(table@, game_id),
{
    let mut sql = String::new();
    sql.append("DELETE FROM ");
    sql.append(table);
    sql.append(" WHERE game_id = ?1");
    let params = vec![integer(game_id)];
    assert(params.deep_view() =~= seq![SqlParam::Integer(game_id as int)]);
    SqlStatement { sql, params }
}


/// Adds a statement at the end of a plan.
pub fn push_statement(plan: &mut Vec<SqlStatement>, st: SqlStatement)
    ensures
        final(plan).deep_view() == old(plan).deep_view().push(st.deep_view()),
{
    let ghost before = plan.deep_view();
    let ghost model = st.deep_view();
    plan.push(st);
    assert(plan.deep_view() =~= before.push(model));
}

/// Adds the statements of `more` at the end of a plan, in order.
pub fn append_plan(plan: &mut Vec<SqlStatement>, more: Vec<SqlStatement>)
    ensures
        final(plan).deep_view() == old(plan).deep_view() + more.deep_view(),
{
    let ghost before = plan.deep_view();
    let ghost added = more.deep_view();
    let mut more = more;
    plan.append(&mut more);
    assert(plan.deep_view() =~= before + added);
}


/// Whether `plan` replaces the rows of a game in `table` by `n` new rows:
/// it first removes every row of the game there, then inserts `n` rows
/// into the same table, each bound to the game by its first parameter.
pub open spec fn replaces_game_rows(
    plan: Seq<StatementModel>,
    table: Seq<char>,
    game_id: i64,
    n: nat,
) -> bool {
    &&& plan.len() == n + 1
    &&& plan[0] == delete_for_game_model(table, game_id)
    &&& forall|i: int|
        1 <= i <= n ==> {
            &&& (#[trigger] plan[i]).sql.take(("INSERT INTO "@ + table).len() as int) == "INSERT INTO "@
                + table
            &&& plan[i].params.len() > 0
            &&& plan[i].params[0] == SqlParam::Integer(game_id as int)
        }
}

/// An insert statement into `table` starts with the insert into it.
pub proof fn lemma_insert_prefix(table: Seq<char>, rest: Seq<char>)
    ensures
        ("INSERT INTO "@ + table + rest).take(("INSERT INTO "@ + table).len() as int) == "INSERT INTO "@
            + table,
{
    assert(("INSERT INTO "@ + table + rest).take(("INSERT INTO "@ + table).len() as int)
        =~= "INSERT INTO "@ + table);
}

/// Whether `plan`, from position `start` on, removes the rows of a game in
/// `table` and then holds the statements `inserts`, in order.
pub open spec fn replaces_at(
    plan: Seq<StatementModel>,
    start: int,
    table: Seq<char>,
    game_id: i64,
    inserts: Seq<StatementModel>,
) -> bool {
    &&& 0 <= start
    &&& start + 1 + inserts.len() <= plan.len()
    &&& plan[start] == delete_for_game_model(table, game_id)
    &&& forall|i: int| 0 <= i < inserts.len() ==> plan[start + 1 + i] == #[trigger] inserts[i]
}

/// A block that removes a game's rows and inserts `inserts`, placed in a
/// plan after `before`, stands there as `replaces_at` says.
pub proof fn lemma_replaces_at_concat(
    before: Seq<StatementModel>,
    block: Seq<StatementModel>,
    after: Seq<StatementModel>,
    table: Seq<char>,
    game_id: i64,
    inserts: Seq<StatementModel>,
)
    requires
        block == seq![delete_for_game_model(table, game_id)] + inserts,
    ensures
        replaces_at(before + block + after, before.len() as int, table, game_id, inserts),
{
    let plan = before + block + after;
    assert forall|i: int| 0 <= i < inserts.len() implies plan[before.len() + 1 + i]
        == #[trigger] inserts[i] by {
        assert(plan[before.len() + 1 + i] == block[1 + i]);
    }
}

} // verus!
