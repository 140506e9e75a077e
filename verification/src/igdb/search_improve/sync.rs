//! Search data: which games to fetch it for, and the statements that
//! store it.

use vstd::prelude::*;
use vstd::string::StringExecFns;

use super::models::{
    IgdbAlternativeName, IgdbGameSearchImprove, IgdbInvolvedCompany, IgdbLanguageSupport,
};
use crate::sql::{
    append_plan, delete_for_game, delete_for_game_model, integer, lemma_insert_prefix, lemma_replaces_at_concat, push_statement, replaces_at, replaces_game_rows, text, SqlParam,
    SqlStatement, StatementModel,
};

verus! {

/// The fields asked of each game for its search data.
pub const SEARCH_IMPROVE_FIELDS: &'static str = "name, genres, keywords, language_supports.language, language_supports.language_support_type, themes, involved_companies.company, alternative_names.name, updated_at";

/// The statements that create the tables of search data.
pub const SEARCH_IMPROVE_TABLES_SQL: &'static str = "CREATE TABLE IF NOT EXISTS search_improve_games (
            game_id INTEGER PRIMARY KEY,
            updated_at INTEGER NOT NULL,
            FOREIGN KEY (game_id) REFERENCES games(game_id)
        );
        CREATE TABLE IF NOT EXISTS game_genres (
            game_id INTEGER NOT NULL,
            genre_id INTEGER NOT NULL,
            PRIMARY KEY (game_id, genre_id),
            FOREIGN KEY (game_id) REFERENCES games(game_id)
        );
        CREATE TABLE IF NOT EXISTS game_keywords (
            game_id INTEGER NOT NULL,
            keyword_id INTEGER NOT NULL,
            PRIMARY KEY (game_id, keyword_id),
            FOREIGN KEY (game_id) REFERENCES games(game_id)
        );
        CREATE TABLE IF NOT EXISTS game_language_supports (
            game_id INTEGER NOT NULL,
            language_support_id INTEGER NOT NULL,
            language_id INTEGER NOT NULL,
            language_support_type_id INTEGER NOT NULL,
            PRIMARY KEY (game_id, language_support_id),
            FOREIGN KEY (game_id) REFERENCES games(game_id)
        );
        CREATE TABLE IF NOT EXISTS game_themes (
            game_id INTEGER NOT NULL,
            theme_id INTEGER NOT NULL,
            PRIMARY KEY (game_id, theme_id),
            FOREIGN KEY (game_id) REFERENCES games(game_id)
        );
        CREATE TABLE IF NOT EXISTS game_involved_companies (
            game_id INTEGER NOT NULL,
            involved_company_id INTEGER NOT NULL,
            company_id INTEGER NOT NULL,
            PRIMARY KEY (game_id, involved_company_id),
            FOREIGN KEY (game_id) REFERENCES games(game_id)
        );
        CREATE TABLE IF NOT EXISTS game_alternative_names (
            game_id INTEGER NOT NULL,
            alternative_name_id INTEGER NOT NULL,
            name TEXT NOT NULL,
            PRIMARY KEY (game_id, alternative_name_id),
            FOREIGN KEY (game_id) REFERENCES games(game_id)
        );";

/// The query for the games whose search data is missing or older than
/// the game itself, in order of id.
pub const PENDING_SEARCH_GAMES_SQL: &'static str = "SELECT games.game_id
         FROM games
         LEFT JOIN search_improve_games ON search_improve_games.game_id = games.game_id
         WHERE search_improve_games.updated_at IS NULL
            OR games.updated_at > search_improve_games.updated_at
         ORDER BY games.game_id";

/// The statement that marks the search data of every game as out of date.
pub const RESET_SEARCH_GAMES_SQL: &'static str = "UPDATE search_improve_games SET updated_at = 0";

/// The columns added to the relation tables after they were first
/// created: table, column and type, in the order they are checked.
pub const SEARCH_ADDED_COLUMNS: [(&'static str, &'static str, &'static str); 4] = [
    ("game_language_supports", "language_id", "INTEGER"),
    ("game_language_supports", "language_support_type_id", "INTEGER"),
    ("game_involved_companies", "company_id", "INTEGER"),
    ("game_alternative_names", "name", "TEXT"),
];

/// Whether the search data must be fetched again for every game: it must
/// when any of the columns added to the relation tables was missing.
pub fn relations_schema_changed(
    language_id_added: bool,
    language_support_type_id_added: bool,
    company_id_added: bool,
    alternative_name_added: bool,
) -> (b: bool)
    ensures
        b == (language_id_added || language_support_type_id_added || company_id_added
            || alternative_name_added),
{
    let language_supports_changed = language_id_added || language_support_type_id_added;
    language_supports_changed || company_id_added || alternative_name_added
}

/// The statement that relates a game to one dictionary entry.
pub open spec fn relation_insert_model(
    table: Seq<char>,
    relation_column: Seq<char>,
    game_id: i64,
    relation_id: i64,
) -> StatementModel {
    StatementModel {
        sql: "INSERT INTO "@ + table + " (game_id, "@ + relation_column + ") VALUES (?1, ?2)"@,
        params: seq![SqlParam::Integer(game_id as int), SqlParam::Integer(relation_id as int)],
    }
}

/// The statements that replace the relations of a game in `table`.
pub open spec fn replace_relations_model(
    table: Seq<char>,
    relation_column: Seq<char>,
    game_id: i64,
    relation_ids: Seq<i64>,
) -> Seq<StatementModel> {
    seq![delete_for_game_model(table, game_id)] + Seq::new(
        relation_ids.len(),
        |i: int| relation_insert_model(table, relation_column, game_id, relation_ids[i]),
    )
}

/// Builds the statements that replace the relations of a game in `table`.
pub fn replace_relations(
    table_name: &str,
    relation_column: &str,
    game_id: i64,
    relation_ids: &Vec<i64>,
) -> (plan: Vec<SqlStatement>)
    ensures
        plan.deep_view() == replace_relations_model(
            table_name@,
            relation_column@,
            game_id,
            relation_ids@,
        ),
{
    let mut plan: Vec<SqlStatement> = Vec::new();
    push_statement(&mut plan, delete_for_game(table_name, game_id));
    let mut sql = String::new();
    sql.append("INSERT INTO ");
    sql.append(table_name);
    sql.append(" (game_id, ");
    sql.append(relation_column);
    sql.append(") VALUES (?1, ?2)");
    let n = relation_ids.len();
    let mut i: usize = 0;
    while i < n
        invariant
            n == relation_ids@.len(),
            i <= n,
            sql@ == "INSERT INTO "@ + table_name@ + " (game_id, "@ + relation_column@
                + ") VALUES (?1, ?2)"@,
            plan.deep_view() =~= seq![delete_for_game_model(table_name@, game_id)] + Seq::new(
                i as nat,
                |k: int|
                    relation_insert_model(table_name@, relation_column@, game_id, relation_ids@[k]),
            ),
        decreases n - i,
    {
        let params = vec![integer(game_id), integer(relation_ids[i])];
        assert(params.deep_view() =~= relation_insert_model(
            table_name@,
            relation_column@,
            game_id,
            relation_ids@[i as int],
        ).params);
        push_statement(&mut plan, SqlStatement { sql: sql.clone(), params });
        i = i + 1;
    }
    plan
}

/// The statement that stores one language support of a game.
pub open spec fn language_support_insert_model(game_id: i64, value: IgdbLanguageSupport) -> StatementModel {
    StatementModel {
        sql: "INSERT INTO game_language_supports (game_id, language_support_id, language_id, language_support_type_id)
         VALUES (?1, ?2, ?3, ?4)"@,
        params: seq![
            SqlParam::Integer(game_id as int),
            SqlParam::Integer(value.id as int),
            SqlParam::Integer(value.language as int),
            SqlParam::Integer(value.language_support_type as int),
        ],
    }
}

/// The statements that replace the language supports of a game.
pub open spec fn replace_language_supports_model(
    game_id: i64,
    values: Seq<IgdbLanguageSupport>,
) -> Seq<StatementModel> {
    seq![delete_for_game_model("game_language_supports"@, game_id)] + Seq::new(
        values.len(),
        |i: int| language_support_insert_model(game_id, values[i]),
    )
}

/// Builds the statements that replace the language supports of a game.
pub fn replace_language_supports(game_id: i64, values: &Vec<IgdbLanguageSupport>) -> (plan: Vec<
    SqlStatement,
>)
    ensures
        plan.deep_view() == replace_language_supports_model(game_id, values@),
{
    let mut plan: Vec<SqlStatement> = Vec::new();
    push_statement(&mut plan, delete_for_game("game_language_supports", game_id));
    let n = values.len();
    let mut i: usize = 0;
    while i < n
        invariant
            n == values@.len(),
            i <= n,
            plan.deep_view() =~= seq![delete_for_game_model("game_language_supports"@, game_id)]
                + Seq::new(i as nat, |k: int| language_support_insert_model(game_id, values@[k])),
        decreases n - i,
    {
        let value = &values[i];
        let params = vec![
            integer(game_id),
            integer(value.id),
            integer(value.language),
            integer(value.language_support_type),
        ];
        assert(params.deep_view() =~= language_support_insert_model(game_id, *value).params);
        let sql = String::from_str(
            "INSERT INTO game_language_supports (game_id, language_support_id, language_id, language_support_type_id)
         VALUES (?1, ?2, ?3, ?4)",
        );
        push_statement(&mut plan, SqlStatement { sql, params });
        i = i + 1;
    }
    plan
}

/// The statement that stores one company involved in a game.
pub open spec fn involved_company_insert_model(game_id: i64, value: IgdbInvolvedCompany) -> StatementModel {
    StatementModel {
        sql: "INSERT INTO game_involved_companies (game_id, involved_company_id, company_id)
         VALUES (?1, ?2, ?3)"@,
        params: seq![
            SqlParam::Integer(game_id as int),
            SqlParam::Integer(value.id as int),
            SqlParam::Integer(value.company as int),
        ],
    }
}

/// The statements that replace the companies involved in a game.
pub open spec fn replace_involved_companies_model(
    game_id: i64,
    values: Seq<IgdbInvolvedCompany>,
) -> Seq<StatementModel> {
    seq![delete_for_game_model("game_involved_companies"@, game_id)] + Seq::new(
        values.len(),
        |i: int| involved_company_insert_model(game_id, values[i]),
    )
}

/// Builds the statements that replace the companies involved in a game.
pub fn replace_involved_companies(game_id: i64, values: &Vec<IgdbInvolvedCompany>) -> (plan: Vec<
    SqlStatement,
>)
    ensures
        plan.deep_view() == replace_involved_companies_model(game_id, values@),
{
    let mut plan: Vec<SqlStatement> = Vec::new();
    push_statement(&mut plan, delete_for_game("game_involved_companies", game_id));
    let n = values.len();
    let mut i: usize = 0;
    while i < n
        invariant
            n == values@.len(),
            i <= n,
            plan.deep_view() =~= seq![delete_for_game_model("game_involved_companies"@, game_id)]
                + Seq::new(i as nat, |k: int| involved_company_insert_model(game_id, values@[k])),
        decreases n - i,
    {
        let value = &values[i];
        let params = vec![integer(game_id), integer(value.id), integer(value.company)];
        assert(params.deep_view() =~= involved_company_insert_model(game_id, *value).params);
        let sql = String::from_str(
            "INSERT INTO game_involved_companies (game_id, involved_company_id, company_id)
         VALUES (?1, ?2, ?3)",
        );
        push_statement(&mut plan, SqlStatement { sql, params });
        i = i + 1;
    }
    plan
}

/// The statement that stores another name of a game.
pub open spec fn alternative_name_insert_model(game_id: i64, value: IgdbAlternativeName) -> StatementModel {
    StatementModel {
        sql: "INSERT INTO game_alternative_names (game_id, alternative_name_id, name)
         VALUES (?1, ?2, ?3)"@,
        params: seq![
            SqlParam::Integer(game_id as int),
            SqlParam::Integer(value.id as int),
            SqlParam::Text(value.name@),
        ],
    }
}

/// The statements that replace the other names of a game.
pub open spec fn replace_alternative_names_model(
    game_id: i64,
    values: Seq<IgdbAlternativeName>,
) -> Seq<StatementModel> {
    seq![delete_for_game_model("game_alternative_names"@, game_id)] + Seq::new(
        values.len(),
        |i: int| alternative_name_insert_model(game_id, values[i]),
    )
}

/// Builds the statements that replace the other names of a game.
pub fn replace_alternative_names(game_id: i64, values: &Vec<IgdbAlternativeName>) -> (plan: Vec<
    SqlStatement,
>)
    ensures
        plan.deep_view() == replace_alternative_names_model(game_id, values@),
{
    let mut plan: Vec<SqlStatement> = Vec::new();
    push_statement(&mut plan, delete_for_game("game_alternative_names", game_id));
    let n = values.len();
    let mut i: usize = 0;
    while i < n
        invariant
            n == values@.len(),
            i <= n,
            plan.deep_view() =~= seq![delete_for_game_model("game_alternative_names"@, game_id)]
                + Seq::new(i as nat, |k: int| alternative_name_insert_model(game_id, values@[k])),
        decreases n - i,
    {
        let value = &values[i];
        let params = vec![integer(game_id), integer(value.id), text(&value.name)];
        assert(params.deep_view() =~= alternative_name_insert_model(game_id, *value).params);
        let sql = String::from_str(
            "INSERT INTO game_alternative_names (game_id, alternative_name_id, name)
         VALUES (?1, ?2, ?3)",
        );
        push_statement(&mut plan, SqlStatement { sql, params });
        i = i + 1;
    }
    plan
}

/// The statement that records when the search data of a game was updated.
pub open spec fn search_mark_model(game: IgdbGameSearchImprove) -> StatementModel {
    StatementModel {
        sql: "INSERT INTO search_improve_games (game_id, updated_at) VALUES (?1, ?2)
         ON CONFLICT(game_id) DO UPDATE SET updated_at = excluded.updated_at"@,
        params: seq![SqlParam::Integer(game.id as int), SqlParam::Integer(game.updated_at as int)],
    }
}

/// The statements that store the search data of one game, in order: its
/// update mark, then its genres, keywords, language supports, themes,
/// involved companies and other names, each replacing what was stored.
pub open spec fn replace_game_relations_model(game: IgdbGameSearchImprove) -> Seq<StatementModel> {
    seq![search_mark_model(game)] + replace_relations_model(
        "game_genres"@,
        "genre_id"@,
        game.id,
        game.genres@,
    ) + replace_relations_model("game_keywords"@, "keyword_id"@, game.id, game.keywords@)
        + replace_language_supports_model(game.id, game.language_supports@)
        + replace_relations_model("game_themes"@, "theme_id"@, game.id, game.themes@)
        + replace_involved_companies_model(game.id, game.involved_companies@)
        + replace_alternative_names_model(game.id, game.alternative_names@)
}

/// Builds the statements that store the search data of one game.
pub fn replace_game_relations(game: &IgdbGameSearchImprove) -> (plan: Vec<SqlStatement>)
    ensures
        plan.deep_view() == replace_game_relations_model(*game),
{
    let mut plan: Vec<SqlStatement> = Vec::new();
    let mark_params = vec![integer(game.id), integer(game.updated_at)];
    assert(mark_params.deep_view() =~= search_mark_model(*game).params);
    push_statement(
        &mut plan,
        SqlStatement {
            sql: String::from_str(
                "INSERT INTO search_improve_games (game_id, updated_at) VALUES (?1, ?2)
         ON CONFLICT(game_id) DO UPDATE SET updated_at = excluded.updated_at",
            ),
            params: mark_params,
        },
    );
    assert(plan.deep_view() =~= seq![search_mark_model(*game)]);
    append_plan(&mut plan, replace_relations("game_genres", "genre_id", game.id, &game.genres));
    append_plan(&mut plan, replace_relations("game_keywords", "keyword_id", game.id, &game.keywords));
    append_plan(&mut plan, replace_language_supports(game.id, &game.language_supports));
    append_plan(&mut plan, replace_relations("game_themes", "theme_id", game.id, &game.themes));
    append_plan(&mut plan, replace_involved_companies(game.id, &game.involved_companies));
    append_plan(&mut plan, replace_alternative_names(game.id, &game.alternative_names));
    plan
}

/// Law: storing the search data of a game first stores its update mark,
/// then replaces, in turn, its genres, keywords, language supports,
/// themes, involved companies and other names: for each list the game's
/// old rows are removed and one insert follows per value, in the order
/// given, bound to the game and carrying that value. Nothing else is in
/// the plan.
pub proof fn lemma_game_relations_store_every_value(g: IgdbGameSearchImprove)
    ensures
        ({
            let plan = replace_game_relations_model(g);
            let ge = g.genres@;
            let k = g.keywords@;
            let l = g.language_supports@;
            let t = g.themes@;
            let c = g.involved_companies@;
            let n = g.alternative_names@;
            &&& plan.len() == 7 + ge.len() + k.len() + l.len() + t.len() + c.len() + n.len()
            &&& plan[0] == StatementModel {
                sql: "INSERT INTO search_improve_games (game_id, updated_at) VALUES (?1, ?2)
         ON CONFLICT(game_id) DO UPDATE SET updated_at = excluded.updated_at"@,
                params: seq![SqlParam::Integer(g.id as int), SqlParam::Integer(g.updated_at as int)],
            }
            &&& replaces_at(
                plan,
                1,
                "game_genres"@,
                g.id,
                Seq::new(
                    ge.len(),
                    |i: int|
                        StatementModel {
                            sql: "INSERT INTO "@ + "game_genres"@ + " (game_id, "@ + "genre_id"@
                                + ") VALUES (?1, ?2)"@,
                            params: seq![
                                SqlParam::Integer(g.id as int),
                                SqlParam::Integer(ge[i] as int),
                            ],
                        },
                ),
            )
            &&& replaces_at(
                plan,
                (2 + ge.len()) as int,
                "game_keywords"@,
                g.id,
                Seq::new(
                    k.len(),
                    |i: int|
                        StatementModel {
                            sql: "INSERT INTO "@ + "game_keywords"@ + " (game_id, "@ + "keyword_id"@
                                + ") VALUES (?1, ?2)"@,
                            params: seq![
                                SqlParam::Integer(g.id as int),
                                SqlParam::Integer(k[i] as int),
                            ],
                        },
                ),
            )
            &&& replaces_at(
                plan,
                (3 + ge.len() + k.len()) as int,
                "game_language_supports"@,
                g.id,
                Seq::new(
                    l.len(),
                    |i: int|
                        StatementModel {
                            sql: "INSERT INTO game_language_supports (game_id, language_support_id, language_id, language_support_type_id)
         VALUES (?1, ?2, ?3, ?4)"@,
                            params: seq![
                                SqlParam::Integer(g.id as int),
                                SqlParam::Integer(l[i].id as int),
                                SqlParam::Integer(l[i].language as int),
                                SqlParam::Integer(l[i].language_support_type as int),
                            ],
                        },
                ),
            )
            &&& replaces_at(
                plan,
                (4 + ge.len() + k.len() + l.len()) as int,
                "game_themes"@,
                g.id,
                Seq::new(
                    t.len(),
                    |i: int|
                        StatementModel {
                            sql: "INSERT INTO "@ + "game_themes"@ + " (game_id, "@ + "theme_id"@
                                + ") VALUES (?1, ?2)"@,
                            params: seq![
                                SqlParam::Integer(g.id as int),
                                SqlParam::Integer(t[i] as int),
                            ],
                        },
                ),
            )
            &&& replaces_at(
                plan,
                (5 + ge.len() + k.len() + l.len() + t.len()) as int,
                "game_involved_companies"@,
                g.id,
                Seq::new(
                    c.len(),
                    |i: int|
                        StatementModel {
                            sql: "INSERT INTO game_involved_companies (game_id, involved_company_id, company_id)
         VALUES (?1, ?2, ?3)"@,
                            params: seq![
                                SqlParam::Integer(g.id as int),
                                SqlParam::Integer(c[i].id as int),
                                SqlParam::Integer(c[i].company as int),
                            ],
                        },
                ),
            )
            &&& replaces_at(
                plan,
                (6 + ge.len() + k.len() + l.len() + t.len() + c.len()) as int,
                "game_alternative_names"@,
                g.id,
                Seq::new(
                    n.len(),
                    |i: int|
                        StatementModel {
                            sql: "INSERT INTO game_alternative_names (game_id, alternative_name_id, name)
         VALUES (?1, ?2, ?3)"@,
                            params: seq![
                                SqlParam::Integer(g.id as int),
                                SqlParam::Integer(n[i].id as int),
                                SqlParam::Text(n[i].name@),
                            ],
                        },
                ),
            )
        }),
{
    let head = seq![search_mark_model(g)];
    let b1 = replace_relations_model("game_genres"@, "genre_id"@, g.id, g.genres@);
    let b2 = replace_relations_model("game_keywords"@, "keyword_id"@, g.id, g.keywords@);
    let b3 = replace_language_supports_model(g.id, g.language_supports@);
    let b4 = replace_relations_model("game_themes"@, "theme_id"@, g.id, g.themes@);
    let b5 = replace_involved_companies_model(g.id, g.involved_companies@);
    let b6 = replace_alternative_names_model(g.id, g.alternative_names@);
    let plan = replace_game_relations_model(g);
    assert(plan == head + b1 + b2 + b3 + b4 + b5 + b6);
    assert(b1 =~= seq![delete_for_game_model("game_genres"@, g.id)] + b1.drop_first());
    assert(b2 =~= seq![delete_for_game_model("game_keywords"@, g.id)] + b2.drop_first());
    assert(b3 =~= seq![delete_for_game_model("game_language_supports"@, g.id)] + b3.drop_first());
    assert(b4 =~= seq![delete_for_game_model("game_themes"@, g.id)] + b4.drop_first());
    assert(b5 =~= seq![delete_for_game_model("game_involved_companies"@, g.id)] + b5.drop_first());
    assert(b6 =~= seq![delete_for_game_model("game_alternative_names"@, g.id)] + b6.drop_first());
    assert(plan =~= head + b1 + (b2 + b3 + b4 + b5 + b6));
    lemma_replaces_at_concat(head, b1, b2 + b3 + b4 + b5 + b6, "game_genres"@, g.id, b1.drop_first());
    assert(plan =~= (head + b1) + b2 + (b3 + b4 + b5 + b6));
    lemma_replaces_at_concat(head + b1, b2, b3 + b4 + b5 + b6, "game_keywords"@, g.id, b2.drop_first());
    assert(plan =~= (head + b1 + b2) + b3 + (b4 + b5 + b6));
    lemma_replaces_at_concat(head + b1 + b2, b3, b4 + b5 + b6, "game_language_supports"@, g.id, b3.drop_first());
    assert(plan =~= (head + b1 + b2 + b3) + b4 + (b5 + b6));
    lemma_replaces_at_concat(head + b1 + b2 + b3, b4, b5 + b6, "game_themes"@, g.id, b4.drop_first());
    assert(plan =~= (head + b1 + b2 + b3 + b4) + b5 + b6);
    lemma_replaces_at_concat(head + b1 + b2 + b3 + b4, b5, b6, "game_involved_companies"@, g.id, b5.drop_first());
    assert(plan =~= (head + b1 + b2 + b3 + b4 + b5) + b6 + Seq::<StatementModel>::empty());
    lemma_replaces_at_concat(head + b1 + b2 + b3 + b4 + b5, b6, Seq::empty(), "game_alternative_names"@, g.id, b6.drop_first());
    assert(b1.drop_first() =~= Seq::new(
                    g.genres@.len(),
                    |i: int|
                        StatementModel {
                            sql: "INSERT INTO "@ + "game_genres"@ + " (game_id, "@ + "genre_id"@
                                + ") VALUES (?1, ?2)"@,
                            params: seq![
                                SqlParam::Integer(g.id as int),
                                SqlParam::Integer(g.genres@[i] as int),
                            ],
                        },
                ));
    assert(b2.drop_first() =~= Seq::new(
                    g.keywords@.len(),
                    |i: int|
                        StatementModel {
                            sql: "INSERT INTO "@ + "game_keywords"@ + " (game_id, "@ + "keyword_id"@
                                + ") VALUES (?1, ?2)"@,
                            params: seq![
                                SqlParam::Integer(g.id as int),
                                SqlParam::Integer(g.keywords@[i] as int),
                            ],
                        },
                ));
    assert(b3.drop_first() =~= Seq::new(
                    g.language_supports@.len(),
                    |i: int|
                        StatementModel {
                            sql: "INSERT INTO game_language_supports (game_id, language_support_id, language_id, language_support_type_id)
         VALUES (?1, ?2, ?3, ?4)"@,
                            params: seq![
                                SqlParam::Integer(g.id as int),
                                SqlParam::Integer(g.language_supports@[i].id as int),
                                SqlParam::Integer(g.language_supports@[i].language as int),
                                SqlParam::Integer(g.language_supports@[i].language_support_type as int),
                            ],
                        },
                ));
    assert(b4.drop_first() =~= Seq::new(
                    g.themes@.len(),
                    |i: int|
                        StatementModel {
                            sql: "INSERT INTO "@ + "game_themes"@ + " (game_id, "@ + "theme_id"@
                                + ") VALUES (?1, ?2)"@,
                            params: seq![
                                SqlParam::Integer(g.id as int),
                                SqlParam::Integer(g.themes@[i] as int),
                            ],
                        },
                ));
    assert(b5.drop_first() =~= Seq::new(
                    g.involved_companies@.len(),
                    |i: int|
                        StatementModel {
                            sql: "INSERT INTO game_involved_companies (game_id, involved_company_id, company_id)
         VALUES (?1, ?2, ?3)"@,
                            params: seq![
                                SqlParam::Integer(g.id as int),
                                SqlParam::Integer(g.involved_companies@[i].id as int),
                                SqlParam::Integer(g.involved_companies@[i].company as int),
                            ],
                        },
                ));
    assert(b6.drop_first() =~= Seq::new(
                    g.alternative_names@.len(),
                    |i: int|
                        StatementModel {
                            sql: "INSERT INTO game_alternative_names (game_id, alternative_name_id, name)
         VALUES (?1, ?2, ?3)"@,
                            params: seq![
                                SqlParam::Integer(g.id as int),
                                SqlParam::Integer(g.alternative_names@[i].id as int),
                                SqlParam::Text(g.alternative_names@[i].name@),
                            ],
                        },
                ));
}

/// The statements that store the search data of a batch of games: those
/// of each game in turn, in the order of the batch.
pub open spec fn save_game_relations_model(games: Seq<IgdbGameSearchImprove>) -> Seq<StatementModel>
    decreases games.len(),
{
    if games.len() == 0 {
        Seq::empty()
    } else {
        save_game_relations_model(games.drop_last()) + replace_game_relations_model(games.last())
    }
}

/// Builds the statements that store the search data of a batch of games;
/// they are meant to run in one transaction.
pub fn save_game_relations(games: &Vec<IgdbGameSearchImprove>) -> (plan: Vec<SqlStatement>)
    ensures
        plan.deep_view() == save_game_relations_model(games@),
{
    let mut plan: Vec<SqlStatement> = Vec::new();
    let n = games.len();
    let mut i: usize = 0;
    while i < n
        invariant
            n == games@.len(),
            i <= n,
            plan.deep_view() == save_game_relations_model(games@.take(i as int)),
        decreases n - i,
    {
        append_plan(&mut plan, replace_game_relations(&games[i]));
        assert(games@.take(i + 1).drop_last() =~= games@.take(i as int));
        i = i + 1;
    }
    assert(games@.take(n as int) =~= games@);
    plan
}


/// Law: storing the relations, language supports, involved companies or
/// other names of a game replaces them: the old rows of the game go
/// first, then one row per value is inserted into the same table, bound
/// to the game, holding the values in the order given.
pub proof fn lemma_relation_replacements_replace_rows(
    table: Seq<char>,
    relation_column: Seq<char>,
    game_id: i64,
    relation_ids: Seq<i64>,
    language_supports: Seq<IgdbLanguageSupport>,
    involved_companies: Seq<IgdbInvolvedCompany>,
    alternative_names: Seq<IgdbAlternativeName>,
)
    ensures
        replaces_game_rows(
            replace_relations_model(table, relation_column, game_id, relation_ids),
            table,
            game_id,
            relation_ids.len(),
        ),
        forall|i: int|
            0 <= i < relation_ids.len() ==> #[trigger] replace_relations_model(
                table,
                relation_column,
                game_id,
                relation_ids,
            )[i + 1].params == seq![
                SqlParam::Integer(game_id as int),
                SqlParam::Integer(relation_ids[i] as int),
            ],
        replaces_game_rows(
            replace_language_supports_model(game_id, language_supports),
            "game_language_supports"@,
            game_id,
            language_supports.len(),
        ),
        forall|i: int|
            0 <= i < language_supports.len() ==> #[trigger] replace_language_supports_model(
                game_id,
                language_supports,
            )[i + 1].params == seq![
                SqlParam::Integer(game_id as int),
                SqlParam::Integer(language_supports[i].id as int),
                SqlParam::Integer(language_supports[i].language as int),
                SqlParam::Integer(language_supports[i].language_support_type as int),
            ],
        replaces_game_rows(
            replace_involved_companies_model(game_id, involved_companies),
            "game_involved_companies"@,
            game_id,
            involved_companies.len(),
        ),
        forall|i: int|
            0 <= i < involved_companies.len() ==> #[trigger] replace_involved_companies_model(
                game_id,
                involved_companies,
            )[i + 1].params == seq![
                SqlParam::Integer(game_id as int),
                SqlParam::Integer(involved_companies[i].id as int),
                SqlParam::Integer(involved_companies[i].company as int),
            ],
        replaces_game_rows(
            replace_alternative_names_model(game_id, alternative_names),
            "game_alternative_names"@,
            game_id,
            alternative_names.len(),
        ),
        forall|i: int|
            0 <= i < alternative_names.len() ==> #[trigger] replace_alternative_names_model(
                game_id,
                alternative_names,
            )[i + 1].params == seq![
                SqlParam::Integer(game_id as int),
                SqlParam::Integer(alternative_names[i].id as int),
                SqlParam::Text(alternative_names[i].name@),
            ],
{
    lemma_insert_prefix(table, " (game_id, "@ + relation_column + ") VALUES (?1, ?2)"@);
    assert("INSERT INTO "@ + table + " (game_id, "@ + relation_column + ") VALUES (?1, ?2)"@
        =~= "INSERT INTO "@ + table + (" (game_id, "@ + relation_column + ") VALUES (?1, ?2)"@));
    reveal_strlit("INSERT INTO ");
    reveal_strlit("game_language_supports");
    reveal_strlit("game_involved_companies");
    reveal_strlit("game_alternative_names");
    reveal_strlit(
        "INSERT INTO game_language_supports (game_id, language_support_id, language_id, language_support_type_id)
         VALUES (?1, ?2, ?3, ?4)",
    );
    reveal_strlit(
        "INSERT INTO game_involved_companies (game_id, involved_company_id, company_id)
         VALUES (?1, ?2, ?3)",
    );
    reveal_strlit(
        "INSERT INTO game_alternative_names (game_id, alternative_name_id, name)
         VALUES (?1, ?2, ?3)",
    );
    assert("INSERT INTO game_language_supports (game_id, language_support_id, language_id, language_support_type_id)
         VALUES (?1, ?2, ?3, ?4)"@.take(("INSERT INTO "@ + "game_language_supports"@).len() as int)
        =~= "INSERT INTO "@ + "game_language_supports"@);
    assert("INSERT INTO game_involved_companies (game_id, involved_company_id, company_id)
         VALUES (?1, ?2, ?3)"@.take(("INSERT INTO "@ + "game_involved_companies"@).len() as int)
        =~= "INSERT INTO "@ + "game_involved_companies"@);
    assert("INSERT INTO game_alternative_names (game_id, alternative_name_id, name)
         VALUES (?1, ?2, ?3)"@.take(("INSERT INTO "@ + "game_alternative_names"@).len() as int)
        =~= "INSERT INTO "@ + "game_alternative_names"@);
}

} // verus!
