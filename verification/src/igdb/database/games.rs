//! Reading the game catalogue: the queries and their parameters.

use vstd::prelude::*;
use vstd::string::StringExecFns;

verus! {

/// The query for a page of the games whose name contains a text, by name.
pub const SEARCH_GAMES_SQL: &'static str = "
            SELECT
                game_id,
                name,
                cover_url,
                release_date,
                rating,
                aggregated_rating,
                summary,
                storyline,
                updated_at
            FROM games
            WHERE name LIKE ?
            ORDER BY name
            LIMIT ?
            OFFSET ?
            ";

/// The query for a page of all games, by name.
pub const LIST_GAMES_SQL: &'static str = "
            SELECT
                game_id,
                name,
                cover_url,
                release_date,
                rating,
                aggregated_rating,
                summary,
                storyline,
                updated_at
            FROM games
            ORDER BY name
            LIMIT ?
            OFFSET ?
            ";

/// The `LIKE` pattern that matches the names containing `query`.
pub open spec fn search_pattern_text(query: Seq<char>) -> Seq<char> {
    "%"@ + query + "%"@
}

/// Law: the search pattern is the query unchanged between two `%`
/// wildcards: two characters longer than the query, `%` at both ends, and
/// the query itself, character for character, in between.
pub proof fn lemma_search_pattern_wraps_query(query: Seq<char>)
    ensures
        search_pattern_text(query).len() == query.len() + 2,
        search_pattern_text(query)[0] == '%',
        search_pattern_text(query)[query.len() as int + 1] == '%',
        search_pattern_text(query).subrange(1, query.len() as int + 1) == query,
{
    reveal_strlit("%");
    assert(search_pattern_text(query).subrange(1, query.len() as int + 1) =~= query);
}

/// Builds the `LIKE` pattern that matches the names containing `query`.
pub fn search_pattern(query: &str) -> (p: String)
    ensures
        p@ == search_pattern_text(query@),
{
    let mut p = String::new();
    p.append("%");
    p.append(query);
    p.append("%");
    p
}

/// The `LIMIT` and `OFFSET` parameters of a page, as SQL integers
/// (reinterpreted as signed 64-bit values).
pub fn page_window(limit: usize, offset: usize) -> (w: (i64, i64))
    ensures
        w == (limit as i64, offset as i64),
{
    (limit as i64, offset as i64)
}

} // verus!
