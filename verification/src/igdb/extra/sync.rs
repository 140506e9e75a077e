//! Extra game data: which games to fetch it for, and the statements that
//! store it.

use vstd::prelude::*;
use vstd::string::StringExecFns;

use super::models::{IgdbExternalGame, IgdbGameExtra, IgdbUrl, IgdbVideo};
use crate::sql::{
    append_plan, delete_for_game, delete_for_game_model, push_statement, replaces_at, lemma_replaces_at_concat, replaces_game_rows, lemma_insert_prefix, integer, opt_text, opt_text_param, opt_view, text,
    SqlParam, SqlStatement, StatementModel,
};

verus! {

/// The fields asked of each game for its extra data.
pub const EXTRA_FIELDS: &'static str = "name, screenshots.url, artworks.url, summary, storyline, external_games.external_game_source, websites.url, videos.video_id, updated_at";

/// The statements that create the tables of extra data.
pub const EXTRA_TABLES_SQL: &'static str = "CREATE TABLE IF NOT EXISTS extra_games (
            game_id INTEGER PRIMARY KEY,
            updated_at INTEGER NOT NULL,
            FOREIGN KEY (game_id) REFERENCES games(game_id)
        );
        CREATE TABLE IF NOT EXISTS game_screenshots (
            game_id INTEGER NOT NULL,
            screenshot_id INTEGER NOT NULL,
            url TEXT NOT NULL,
            PRIMARY KEY (game_id, screenshot_id),
            FOREIGN KEY (game_id) REFERENCES games(game_id)
        );
        CREATE TABLE IF NOT EXISTS game_artworks (
            game_id INTEGER NOT NULL,
            artwork_id INTEGER NOT NULL,
            url TEXT NOT NULL,
            PRIMARY KEY (game_id, artwork_id),
            FOREIGN KEY (game_id) REFERENCES games(game_id)
        );
        CREATE TABLE IF NOT EXISTS game_external_games (
            game_id INTEGER NOT NULL,
            external_game_id INTEGER NOT NULL,
            external_game_source_id INTEGER NOT NULL,
            PRIMARY KEY (game_id, external_game_id),
            FOREIGN KEY (game_id) REFERENCES games(game_id)
        );
        CREATE TABLE IF NOT EXISTS game_websites (
            game_id INTEGER NOT NULL,
            website_id INTEGER NOT NULL,
            url TEXT NOT NULL,
            PRIMARY KEY (game_id, website_id),
            FOREIGN KEY (game_id) REFERENCES games(game_id)
        );
        CREATE TABLE IF NOT EXISTS game_videos (
            game_id INTEGER NOT NULL,
            igdb_video_id INTEGER NOT NULL,
            video_id TEXT NOT NULL,
            PRIMARY KEY (game_id, igdb_video_id),
            FOREIGN KEY (game_id) REFERENCES games(game_id)
        );";

/// The query for the games whose extra data is missing or older than
/// the game itself, in order of id.
pub const PENDING_EXTRA_GAMES_SQL: &'static str = "SELECT games.game_id
         FROM games
         LEFT JOIN extra_games ON extra_games.game_id = games.game_id
         WHERE extra_games.updated_at IS NULL
            OR games.updated_at > extra_games.updated_at
         ORDER BY games.game_id";

/// Which games to fetch extra data for.
#[derive(Debug, Clone, Copy, PartialEq, Eq)]
pub enum ExtraSyncMode {
    /// Every game whose extra data is missing or out of date.
    All,
    /// One game, whatever the state of its extra data.
    Game(i64),
}

/// The games that a mode names by itself: one game for `Game`; none for
/// `All`, whose games are read from the database.
pub fn named_game_ids(mode: ExtraSyncMode) -> (ids: Option<Vec<i64>>)
    ensures
        match mode {
            ExtraSyncMode::All => ids is None,
            ExtraSyncMode::Game(id) => ids is Some && ids->0@ == seq![id],
        },
{
    match mode {
        ExtraSyncMode::All => None,
        ExtraSyncMode::Game(id) => {
            let v = vec![id];
            assert(v@ =~= seq![id]);
            Some(v)
        },
    }
}

/// The statement that stores one address record of a game.
pub open spec fn url_insert_model(
    table: Seq<char>,
    id_column: Seq<char>,
    game_id: i64,
    value: IgdbUrl,
) -> StatementModel {
    StatementModel {
        sql: "INSERT INTO "@ + table + " (game_id, "@ + id_column + ", url) VALUES (?1, ?2, ?3)"@,
        params: seq![
            SqlParam::Integer(game_id as int),
            SqlParam::Integer(value.id as int),
            SqlParam::Text(value.url@),
        ],
    }
}

/// The statements that replace the address records of a game in
/// `table`: remove the old rows, then add one row per value, in order.
pub open spec fn replace_urls_model(
    table: Seq<char>,
    id_column: Seq<char>,
    game_id: i64,
    values: Seq<IgdbUrl>,
) -> Seq<StatementModel> {
    seq![delete_for_game_model(table, game_id)] + Seq::new(
        values.len(),
        |i: int| url_insert_model(table, id_column, game_id, values[i]),
    )
}

/// Builds the statements that replace the address records of a game.
pub fn replace_urls(table_name: &str, id_column: &str, game_id: i64, values: &Vec<IgdbUrl>) -> (plan:
    Vec<SqlStatement>)
    ensures
        plan.deep_view() == replace_urls_model(table_name@, id_column@, game_id, values@),
{
    let mut plan: Vec<SqlStatement> = Vec::new();
    push_statement(&mut plan, delete_for_game(table_name, game_id));
    let mut sql = String::new();
    sql.append("INSERT INTO ");
    sql.append(table_name);
    sql.append(" (game_id, ");
    sql.append(id_column);
    sql.append(", url) VALUES (?1, ?2, ?3)");
    let n = values.len();
    let mut i: usize = 0;
    while i < n
        invariant
            n == values@.len(),
            i <= n,
            sql@ == "INSERT INTO "@ + table_name@ + " (game_id, "@ + id_column@
                + ", url) VALUES (?1, ?2, ?3)"@,
            plan.deep_view() =~= seq![delete_for_game_model(table_name@, game_id)] + Seq::new(
                i as nat,
                |k: int| url_insert_model(table_name@, id_column@, game_id, values@[k]),
            ),
        decreases n - i,
    {
        let value = &values[i];
        let params = vec![integer(game_id), integer(value.id), text(&value.url)];
        assert(params.deep_view() =~= url_insert_model(table_name@, id_column@, game_id, *value).params);
        push_statement(&mut plan, SqlStatement { sql: sql.clone(), params });
        i = i + 1;
    }
    plan
}

/// The statement that stores one external entry of a game.
pub open spec fn external_game_insert_model(game_id: i64, value: IgdbExternalGame) -> StatementModel {
    StatementModel {
        sql: "INSERT INTO game_external_games (game_id, external_game_id, external_game_source_id)
         VALUES (?1, ?2, ?3)"@,
        params: seq![
            SqlParam::Integer(game_id as int),
            SqlParam::Integer(value.id as int),
            SqlParam::Integer(value.external_game_source as int),
        ],
    }
}

/// The statements that replace the external entries of a game.
pub open spec fn replace_external_games_model(game_id: i64, values: Seq<IgdbExternalGame>) -> Seq<
    StatementModel,
> {
    seq![delete_for_game_model("game_external_games"@, game_id)] + Seq::new(
        values.len(),
        |i: int| external_game_insert_model(game_id, values[i]),
    )
}

/// Builds the statements that replace the external entries of a game.
pub fn replace_external_games(game_id: i64, values: &Vec<IgdbExternalGame>) -> (plan: Vec<
    SqlStatement,
>)
    ensures
        plan.deep_view() == replace_external_games_model(game_id, values@),
{
    let mut plan: Vec<SqlStatement> = Vec::new();
    push_statement(&mut plan, delete_for_game("game_external_games", game_id));
    let n = values.len();
    let mut i: usize = 0;
    while i < n
        invariant
            n == values@.len(),
            i <= n,
            plan.deep_view() =~= seq![delete_for_game_model("game_external_games"@, game_id)]
                + Seq::new(i as nat, |k: int| external_game_insert_model(game_id, values@[k])),
        decreases n - i,
    {
        let value = &values[i];
        let params = vec![integer(game_id), integer(value.id), integer(value.external_game_source)];
        assert(params.deep_view() =~= external_game_insert_model(game_id, *value).params);
        let sql = String::from_str(
            "INSERT INTO game_external_games (game_id, external_game_id, external_game_source_id)
         VALUES (?1, ?2, ?3)",
        );
        push_statement(&mut plan, SqlStatement { sql, params });
        i = i + 1;
    }
    plan
}

/// The statement that stores one video of a game.
pub open spec fn video_insert_model(game_id: i64, value: IgdbVideo) -> StatementModel {
    StatementModel {
        sql: "INSERT INTO game_videos (game_id, igdb_video_id, video_id) VALUES (?1, ?2, ?3)"@,
        params: seq![
            SqlParam::Integer(game_id as int),
            SqlParam::Integer(value.id as int),
            SqlParam::Text(value.video_id@),
        ],
    }
}

/// The statements that replace the videos of a game.
pub open spec fn replace_videos_model(game_id: i64, values: Seq<IgdbVideo>) -> Seq<StatementModel> {
    seq![delete_for_game_model("game_videos"@, game_id)] + Seq::new(
        values.len(),
        |i: int| video_insert_model(game_id, values[i]),
    )
}

/// Builds the statements that replace the videos of a game.
pub fn replace_videos(game_id: i64, values: &Vec<IgdbVideo>) -> (plan: Vec<SqlStatement>)
    ensures
        plan.deep_view() == replace_videos_model(game_id, values@),
{
    let mut plan: Vec<SqlStatement> = Vec::new();
    push_statement(&mut plan, delete_for_game("game_videos", game_id));
    let n = values.len();
    let mut i: usize = 0;
    while i < n
        invariant
            n == values@.len(),
            i <= n,
            plan.deep_view() =~= seq![delete_for_game_model("game_videos"@, game_id)] + Seq::new(
                i as nat,
                |k: int| video_insert_model(game_id, values@[k]),
            ),
        decreases n - i,
    {
        let value = &values[i];
        let params = vec![integer(game_id), integer(value.id), text(&value.video_id)];
        assert(params.deep_view() =~= video_insert_model(game_id, *value).params);
        let sql = String::from_str(
            "INSERT INTO game_videos (game_id, igdb_video_id, video_id) VALUES (?1, ?2, ?3)",
        );
        push_statement(&mut plan, SqlStatement { sql, params });
        i = i + 1;
    }
    plan
}

/// The statement that stores the summary and storyline of a game.
pub open spec fn game_text_update_model(game: IgdbGameExtra) -> StatementModel {
    StatementModel {
        sql: "UPDATE games SET summary = ?2, storyline = ?3 WHERE game_id = ?1"@,
        params: seq![
            SqlParam::Integer(game.id as int),
            opt_text_param(opt_view(game.summary)),
            opt_text_param(opt_view(game.storyline)),
        ],
    }
}

/// The statement that records when the extra data of a game was updated.
pub open spec fn extra_mark_model(game: IgdbGameExtra) -> StatementModel {
    StatementModel {
        sql: "INSERT INTO extra_games (game_id, updated_at) VALUES (?1, ?2)
         ON CONFLICT(game_id) DO UPDATE SET updated_at = excluded.updated_at"@,
        params: seq![SqlParam::Integer(game.id as int), SqlParam::Integer(game.updated_at as int)],
    }
}

/// The statements that store the extra data of one game, in order: its
/// texts, its update mark, then its screenshots, artworks, external
/// entries, websites and videos, each replacing what was stored before.
pub open spec fn replace_game_extra_model(game: IgdbGameExtra) -> Seq<StatementModel> {
    seq![game_text_update_model(game), extra_mark_model(game)] + replace_urls_model(
        "game_screenshots"@,
        "screenshot_id"@,
        game.id,
        game.screenshots@,
    ) + replace_urls_model("game_artworks"@, "artwork_id"@, game.id, game.artworks@)
        + replace_external_games_model(game.id, game.external_games@) + replace_urls_model(
        "game_websites"@,
        "website_id"@,
        game.id,
        game.websites@,
    ) + replace_videos_model(game.id, game.videos@)
}

/// Builds the statements that store the extra data of one game.
pub fn replace_game_extra(game: &IgdbGameExtra) -> (plan: Vec<SqlStatement>)
    ensures
        plan.deep_view() == replace_game_extra_model(*game),
{
    let mut plan: Vec<SqlStatement> = Vec::new();
    let update_params = vec![integer(game.id), opt_text(&game.summary), opt_text(&game.storyline)];
    assert(update_params.deep_view() =~= game_text_update_model(*game).params);
    push_statement(
        &mut plan,
        SqlStatement {
            sql: String::from_str("UPDATE games SET summary = ?2, storyline = ?3 WHERE game_id = ?1"),
            params: update_params,
        },
    );
    let mark_params = vec![integer(game.id), integer(game.updated_at)];
    assert(mark_params.deep_view() =~= extra_mark_model(*game).params);
    push_statement(
        &mut plan,
        SqlStatement {
            sql: String::from_str(
                "INSERT INTO extra_games (game_id, updated_at) VALUES (?1, ?2)
         ON CONFLICT(game_id) DO UPDATE SET updated_at = excluded.updated_at",
            ),
            params: mark_params,
        },
    );
    assert(plan.deep_view() =~= seq![game_text_update_model(*game), extra_mark_model(*game)]);
    append_plan(&mut plan, replace_urls("game_screenshots", "screenshot_id", game.id, &game.screenshots));
    append_plan(&mut plan, replace_urls("game_artworks", "artwork_id", game.id, &game.artworks));
    append_plan(&mut plan, replace_external_games(game.id, &game.external_games));
    append_plan(&mut plan, replace_urls("game_websites", "website_id", game.id, &game.websites));
    append_plan(&mut plan, replace_videos(game.id, &game.videos));
    plan
}


/// Law: storing the extra data of a game first stores its texts and its
/// update mark, then replaces, in turn, its screenshots, artworks,
/// external entries, websites and videos: for each list the game's old
/// rows are removed and one insert follows per value, in the order given,
/// bound to the game and carrying that value. Nothing else is in the plan.
pub proof fn lemma_game_extra_stores_every_value(g: IgdbGameExtra)
    ensures
        ({
            let plan = replace_game_extra_model(g);
            let s = g.screenshots@;
            let a = g.artworks@;
            let e = g.external_games@;
            let w = g.websites@;
            let v = g.videos@;
            &&& plan.len() == 7 + s.len() + a.len() + e.len() + w.len() + v.len()
            &&& plan[0] == StatementModel {
                sql: "UPDATE games SET summary = ?2, storyline = ?3 WHERE game_id = ?1"@,
                params: seq![
                    SqlParam::Integer(g.id as int),
                    opt_text_param(opt_view(g.summary)),
                    opt_text_param(opt_view(g.storyline)),
                ],
            }
            &&& plan[1] == StatementModel {
                sql: "INSERT INTO extra_games (game_id, updated_at) VALUES (?1, ?2)
         ON CONFLICT(game_id) DO UPDATE SET updated_at = excluded.updated_at"@,
                params: seq![SqlParam::Integer(g.id as int), SqlParam::Integer(g.updated_at as int)],
            }
            &&& replaces_at(
                plan,
                2,
                "game_screenshots"@,
                g.id,
                Seq::new(
                    s.len(),
                    |i: int|
                        StatementModel {
                            sql: "INSERT INTO "@ + "game_screenshots"@ + " (game_id, "@
                                + "screenshot_id"@ + ", url) VALUES (?1, ?2, ?3)"@,
                            params: seq![
                                SqlParam::Integer(g.id as int),
                                SqlParam::Integer(s[i].id as int),
                                SqlParam::Text(s[i].url@),
                            ],
                        },
                ),
            )
            &&& replaces_at(
                plan,
                (3 + s.len()) as int,
                "game_artworks"@,
                g.id,
                Seq::new(
                    a.len(),
                    |i: int|
                        StatementModel {
                            sql: "INSERT INTO "@ + "game_artworks"@ + " (game_id, "@ + "artwork_id"@
                                + ", url) VALUES (?1, ?2, ?3)"@,
                            params: seq![
                                SqlParam::Integer(g.id as int),
                                SqlParam::Integer(a[i].id as int),
                                SqlParam::Text(a[i].url@),
                            ],
                        },
                ),
            )
            &&& replaces_at(
                plan,
                (4 + s.len() + a.len()) as int,
                "game_external_games"@,
                g.id,
                Seq::new(
                    e.len(),
                    |i: int|
                        StatementModel {
                            sql: "INSERT INTO game_external_games (game_id, external_game_id, external_game_source_id)
         VALUES (?1, ?2, ?3)"@,
                            params: seq![
                                SqlParam::Integer(g.id as int),
                                SqlParam::Integer(e[i].id as int),
                                SqlParam::Integer(e[i].external_game_source as int),
                            ],
                        },
                ),
            )
            &&& replaces_at(
                plan,
                (5 + s.len() + a.len() + e.len()) as int,
                "game_websites"@,
                g.id,
                Seq::new(
                    w.len(),
                    |i: int|
                        StatementModel {
                            sql: "INSERT INTO "@ + "game_websites"@ + " (game_id, "@ + "website_id"@
                                + ", url) VALUES (?1, ?2, ?3)"@,
                            params: seq![
                                SqlParam::Integer(g.id as int),
                                SqlParam::Integer(w[i].id as int),
                                SqlParam::Text(w[i].url@),
                            ],
                        },
                ),
            )
            &&& replaces_at(
                plan,
                (6 + s.len() + a.len() + e.len() + w.len()) as int,
                "game_videos"@,
                g.id,
                Seq::new(
                    v.len(),
                    |i: int|
                        StatementModel {
                            sql: "INSERT INTO game_videos (game_id, igdb_video_id, video_id) VALUES (?1, ?2, ?3)"@,
                            params: seq![
                                SqlParam::Integer(g.id as int),
                                SqlParam::Integer(v[i].id as int),
                                SqlParam::Text(v[i].video_id@),
                            ],
                        },
                ),
            )
        }),
{
    let head = seq![game_text_update_model(g), extra_mark_model(g)];
    let bs = replace_urls_model("game_screenshots"@, "screenshot_id"@, g.id, g.screenshots@);
    let ba = replace_urls_model("game_artworks"@, "artwork_id"@, g.id, g.artworks@);
    let be = replace_external_games_model(g.id, g.external_games@);
    let bw = replace_urls_model("game_websites"@, "website_id"@, g.id, g.websites@);
    let bv = replace_videos_model(g.id, g.videos@);
    let plan = replace_game_extra_model(g);
    assert(plan == head + bs + ba + be + bw + bv);
    assert(bs =~= seq![delete_for_game_model("game_screenshots"@, g.id)] + bs.drop_first());
    assert(ba =~= seq![delete_for_game_model("game_artworks"@, g.id)] + ba.drop_first());
    assert(be =~= seq![delete_for_game_model("game_external_games"@, g.id)] + be.drop_first());
    assert(bw =~= seq![delete_for_game_model("game_websites"@, g.id)] + bw.drop_first());
    assert(bv =~= seq![delete_for_game_model("game_videos"@, g.id)] + bv.drop_first());
    assert(head + bs + ba + be + bw + bv =~= head + bs + (ba + be + bw + bv));
    lemma_replaces_at_concat(head, bs, ba + be + bw + bv, "game_screenshots"@, g.id, bs.drop_first());
    assert(head + bs + ba + be + bw + bv =~= (head + bs) + ba + (be + bw + bv));
    lemma_replaces_at_concat(head + bs, ba, be + bw + bv, "game_artworks"@, g.id, ba.drop_first());
    assert(head + bs + ba + be + bw + bv =~= (head + bs + ba) + be + (bw + bv));
    lemma_replaces_at_concat(head + bs + ba, be, bw + bv, "game_external_games"@, g.id, be.drop_first());
    assert(head + bs + ba + be + bw + bv =~= (head + bs + ba + be) + bw + bv);
    lemma_replaces_at_concat(head + bs + ba + be, bw, bv, "game_websites"@, g.id, bw.drop_first());
    assert(head + bs + ba + be + bw + bv =~= (head + bs + ba + be + bw) + bv + Seq::<StatementModel>::empty());
    lemma_replaces_at_concat(head + bs + ba + be + bw, bv, Seq::empty(), "game_videos"@, g.id, bv.drop_first());
    assert(bs.drop_first() =~= Seq::new(
        g.screenshots@.len(),
        |i: int|
            StatementModel {
                sql: "INSERT INTO "@ + "game_screenshots"@ + " (game_id, "@ + "screenshot_id"@
                    + ", url) VALUES (?1, ?2, ?3)"@,
                params: seq![
                    SqlParam::Integer(g.id as int),
                    SqlParam::Integer(g.screenshots@[i].id as int),
                    SqlParam::Text(g.screenshots@[i].url@),
                ],
            },
    ));
    assert(ba.drop_first() =~= Seq::new(
        g.artworks@.len(),
        |i: int|
            StatementModel {
                sql: "INSERT INTO "@ + "game_artworks"@ + " (game_id, "@ + "artwork_id"@
                    + ", url) VALUES (?1, ?2, ?3)"@,
                params: seq![
                    SqlParam::Integer(g.id as int),
                    SqlParam::Integer(g.artworks@[i].id as int),
                    SqlParam::Text(g.artworks@[i].url@),
                ],
            },
    ));
    assert(be.drop_first() =~= Seq::new(
        g.external_games@.len(),
        |i: int|
            StatementModel {
                sql: "INSERT INTO game_external_games (game_id, external_game_id, external_game_source_id)
         VALUES (?1, ?2, ?3)"@,
                params: seq![
                    SqlParam::Integer(g.id as int),
                    SqlParam::Integer(g.external_games@[i].id as int),
                    SqlParam::Integer(g.external_games@[i].external_game_source as int),
                ],
            },
    ));
    assert(bw.drop_first() =~= Seq::new(
        g.websites@.len(),
        |i: int|
            StatementModel {
                sql: "INSERT INTO "@ + "game_websites"@ + " (game_id, "@ + "website_id"@
                    + ", url) VALUES (?1, ?2, ?3)"@,
                params: seq![
                    SqlParam::Integer(g.id as int),
                    SqlParam::Integer(g.websites@[i].id as int),
                    SqlParam::Text(g.websites@[i].url@),
                ],
            },
    ));
    assert(bv.drop_first() =~= Seq::new(
        g.videos@.len(),
        |i: int|
            StatementModel {
                sql: "INSERT INTO game_videos (game_id, igdb_video_id, video_id) VALUES (?1, ?2, ?3)"@,
                params: seq![
                    SqlParam::Integer(g.id as int),
                    SqlParam::Integer(g.videos@[i].id as int),
                    SqlParam::Text(g.videos@[i].video_id@),
                ],
            },
    ));
}

/// The statements that store the extra data of a batch of games: those
/// of each game in turn, in the order of the batch.
pub open spec fn save_game_extras_model(games: Seq<IgdbGameExtra>) -> Seq<StatementModel>
    decreases games.len(),
{
    if games.len() == 0 {
        Seq::empty()
    } else {
        save_game_extras_model(games.drop_last()) + replace_game_extra_model(games.last())
    }
}

/// Builds the statements that store the extra data of a batch of games;
/// they are meant to run in one transaction.
pub fn save_game_extras(games: &Vec<IgdbGameExtra>) -> (plan: Vec<SqlStatement>)
    ensures
        plan.deep_view() == save_game_extras_model(games@),
{
    let mut plan: Vec<SqlStatement> = Vec::new();
    let n = games.len();
    let mut i: usize = 0;
    while i < n
        invariant
            n == games@.len(),
            i <= n,
            plan.deep_view() == save_game_extras_model(games@.take(i as int)),
        decreases n - i,
    {
        append_plan(&mut plan, replace_game_extra(&games[i]));
        assert(games@.take(i + 1).drop_last() =~= games@.take(i as int));
        i = i + 1;
    }
    assert(games@.take(n as int) =~= games@);
    plan
}


/// Law: storing the address records, external entries or videos of a
/// game replaces them: the old rows of the game go first, then one row
/// per value is inserted into the same table, bound to the game, holding
/// the values in the order given.
pub proof fn lemma_extra_replacements_replace_rows(
    table: Seq<char>,
    id_column: Seq<char>,
    game_id: i64,
    urls: Seq<IgdbUrl>,
    external_games: Seq<IgdbExternalGame>,
    videos: Seq<IgdbVideo>,
)
    ensures
        replaces_game_rows(
            replace_urls_model(table, id_column, game_id, urls),
            table,
            game_id,
            urls.len(),
        ),
        forall|i: int|
            0 <= i < urls.len() ==> #[trigger] replace_urls_model(table, id_column, game_id, urls)[i
                + 1].params == seq![
                SqlParam::Integer(game_id as int),
                SqlParam::Integer(urls[i].id as int),
                SqlParam::Text(urls[i].url@),
            ],
        replaces_game_rows(
            replace_external_games_model(game_id, external_games),
            "game_external_games"@,
            game_id,
            external_games.len(),
        ),
        forall|i: int|
            0 <= i < external_games.len() ==> #[trigger] replace_external_games_model(
                game_id,
                external_games,
            )[i + 1].params == seq![
                SqlParam::Integer(game_id as int),
                SqlParam::Integer(external_games[i].id as int),
                SqlParam::Integer(external_games[i].external_game_source as int),
            ],
        replaces_game_rows(
            replace_videos_model(game_id, videos),
            "game_videos"@,
            game_id,
            videos.len(),
        ),
        forall|i: int|
            0 <= i < videos.len() ==> #[trigger] replace_videos_model(game_id, videos)[i + 1].params
                == seq![
                SqlParam::Integer(game_id as int),
                SqlParam::Integer(videos[i].id as int),
                SqlParam::Text(videos[i].video_id@),
            ],
{
    lemma_insert_prefix(table, " (game_id, "@ + id_column + ", url) VALUES (?1, ?2, ?3)"@);
    assert("INSERT INTO "@ + table + " (game_id, "@ + id_column + ", url) VALUES (?1, ?2, ?3)"@
        =~= "INSERT INTO "@ + table + (" (game_id, "@ + id_column + ", url) VALUES (?1, ?2, ?3)"@));
    reveal_strlit("INSERT INTO ");
    reveal_strlit("game_external_games");
    reveal_strlit("game_videos");
    reveal_strlit(
        "INSERT INTO game_external_games (game_id, external_game_id, external_game_source_id)
         VALUES (?1, ?2, ?3)",
    );
    reveal_strlit("INSERT INTO game_videos (game_id, igdb_video_id, video_id) VALUES (?1, ?2, ?3)");
    assert("INSERT INTO game_external_games (game_id, external_game_id, external_game_source_id)
         VALUES (?1, ?2, ?3)"@.take(("INSERT INTO "@ + "game_external_games"@).len() as int)
        =~= "INSERT INTO "@ + "game_external_games"@);
    assert("INSERT INTO game_videos (game_id, igdb_video_id, video_id) VALUES (?1, ?2, ?3)"@.take(
        ("INSERT INTO "@ + "game_videos"@).len() as int,
    ) =~= "INSERT INTO "@ + "game_videos"@);
}

} // verus!
