use babel_core::igdb::dictionaries::genres::{genre_row, GENRES_ENDPOINT, GENRES_FIELDS, GENRES_TABLE};
use babel_core::igdb::dictionaries::language::language_row;
use babel_core::igdb::dictionaries::models::{IgdbGenre, IgdbLanguage, IgdbSource, IgdbTheme};
use babel_core::igdb::dictionaries::sources::{source_row, SOURCES_ENDPOINT, SOURCES_TABLE};
use babel_core::igdb::dictionaries::themes::theme_row;
use babel_core::igdb::extra::models::{IgdbExternalGame, IgdbGameExtra, IgdbUrl, IgdbVideo};
use babel_core::igdb::extra::sync::{
    named_game_ids, replace_external_games, replace_game_extra, replace_urls, replace_videos,
    save_game_extras, ExtraSyncMode,
};
use babel_core::igdb::search_improve::models::{
    IgdbAlternativeName, IgdbGameSearchImprove, IgdbInvolvedCompany, IgdbLanguageSupport,
};
use babel_core::igdb::search_improve::sync::{
    relations_schema_changed, replace_alternative_names, replace_game_relations,
    replace_involved_companies, replace_language_supports, replace_relations, save_game_relations,
};
use babel_core::sql::{delete_for_game, SqlStatement, SqlValue};

fn ival(i: i64) -> SqlValue {
    SqlValue::Integer(i)
}

fn txt(s: &str) -> SqlValue {
    SqlValue::Text(s.to_string())
}

fn st(sql: &str, params: Vec<SqlValue>) -> SqlStatement {
    SqlStatement { sql: sql.to_string(), params }
}

#[test]
fn dictionary_rows() {
    let g = IgdbGenre { id: 5, name: "Puzzle".into(), slug: "puzzle".into(), updated_at: 1700 };
    assert_eq!(genre_row(&g), vec![ival(5), txt("Puzzle"), txt("puzzle"), ival(1700)]);
    let t = IgdbTheme { id: 1, name: "Action".into(), slug: "action".into(), updated_at: 2 };
    assert_eq!(theme_row(&t), vec![ival(1), txt("Action"), txt("action"), ival(2)]);
    let l = IgdbLanguage { id: 7, name: "Portuguese".into(), updated_at: 3 };
    assert_eq!(language_row(&l), vec![ival(7), txt("Portuguese"), ival(3)]);
    let s = IgdbSource { id: 11, name: "Xbox".into(), updated_at: 4 };
    assert_eq!(source_row(&s), vec![ival(11), txt("Xbox"), ival(4)]);
    assert_eq!(GENRES_ENDPOINT, "genres");
    assert_eq!(GENRES_FIELDS, "name, slug, updated_at");
    assert_eq!(GENRES_TABLE, "genres");
    assert_eq!(SOURCES_ENDPOINT, "external_game_sources");
    assert_eq!(SOURCES_TABLE, "sources");
}

#[test]
fn delete_statement_for_game() {
    assert_eq!(
        delete_for_game("game_videos", 9),
        st("DELETE FROM game_videos WHERE game_id = ?1", vec![ival(9)])
    );
}

#[test]
fn replacing_urls() {
    let values = vec![
        IgdbUrl { id: 1, url: "//a.png".into() },
        IgdbUrl { id: 2, url: "//b.png".into() },
    ];
    let plan = replace_urls("game_screenshots", "screenshot_id", 77, &values);
    assert_eq!(
        plan,
        vec![
            st("DELETE FROM game_screenshots WHERE game_id = ?1", vec![ival(77)]),
            st(
                "INSERT INTO game_screenshots (game_id, screenshot_id, url) VALUES (?1, ?2, ?3)",
                vec![ival(77), ival(1), txt("//a.png")]
            ),
            st(
                "INSERT INTO game_screenshots (game_id, screenshot_id, url) VALUES (?1, ?2, ?3)",
                vec![ival(77), ival(2), txt("//b.png")]
            ),
        ]
    );
    assert_eq!(replace_urls("game_websites", "website_id", 3, &vec![]).len(), 1);
}

#[test]
fn replacing_external_games_and_videos() {
    let ext = replace_external_games(4, &vec![IgdbExternalGame { id: 10, external_game_source: 1 }]);
    assert_eq!(
        ext,
        vec![
            st("DELETE FROM game_external_games WHERE game_id = ?1", vec![ival(4)]),
            st(
                "INSERT INTO game_external_games (game_id, external_game_id, external_game_source_id)
         VALUES (?1, ?2, ?3)",
                vec![ival(4), ival(10), ival(1)]
            ),
        ]
    );
    let vids = replace_videos(4, &vec![IgdbVideo { id: 3, video_id: "abc".into() }]);
    assert_eq!(
        vids,
        vec![
            st("DELETE FROM game_videos WHERE game_id = ?1", vec![ival(4)]),
            st(
                "INSERT INTO game_videos (game_id, igdb_video_id, video_id) VALUES (?1, ?2, ?3)",
                vec![ival(4), ival(3), txt("abc")]
            ),
        ]
    );
}

fn sample_extra(id: i64) -> IgdbGameExtra {
    IgdbGameExtra {
        id,
        name: "Game".into(),
        screenshots: vec![IgdbUrl { id: 1, url: "s".into() }],
        artworks: vec![],
        external_games: vec![IgdbExternalGame { id: 2, external_game_source: 11 }],
        websites: vec![IgdbUrl { id: 3, url: "w".into() }, IgdbUrl { id: 4, url: "x".into() }],
        videos: vec![],
        summary: Some("A summary".into()),
        storyline: None,
        updated_at: 99,
    }
}

#[test]
fn storing_extra_data_of_a_game() {
    let plan = replace_game_extra(&sample_extra(8));
    assert_eq!(plan.len(), 2 + 2 + 1 + 2 + 3 + 1);
    assert_eq!(
        plan[0],
        st(
            "UPDATE games SET summary = ?2, storyline = ?3 WHERE game_id = ?1",
            vec![ival(8), txt("A summary"), SqlValue::Null]
        )
    );
    assert_eq!(
        plan[1],
        st(
            "INSERT INTO extra_games (game_id, updated_at) VALUES (?1, ?2)
         ON CONFLICT(game_id) DO UPDATE SET updated_at = excluded.updated_at",
            vec![ival(8), ival(99)]
        )
    );
    assert_eq!(plan[2].sql, "DELETE FROM game_screenshots WHERE game_id = ?1");
    assert_eq!(plan[4].sql, "DELETE FROM game_artworks WHERE game_id = ?1");
    assert_eq!(plan[5].sql, "DELETE FROM game_external_games WHERE game_id = ?1");
    assert_eq!(plan[7].sql, "DELETE FROM game_websites WHERE game_id = ?1");
    assert_eq!(plan[8].params, vec![ival(8), ival(3), txt("w")]);
    assert_eq!(plan[9].params, vec![ival(8), ival(4), txt("x")]);
    assert_eq!(plan[10].sql, "DELETE FROM game_videos WHERE game_id = ?1");
}

#[test]
fn storing_extra_data_of_a_batch() {
    let games = vec![sample_extra(1), sample_extra(2)];
    let plan = save_game_extras(&games);
    let mut expected = replace_game_extra(&games[0]);
    expected.extend(replace_game_extra(&games[1]));
    assert_eq!(plan, expected);
    assert!(save_game_extras(&vec![]).is_empty());
}

#[test]
fn extra_sync_modes() {
    assert_eq!(named_game_ids(ExtraSyncMode::All), None);
    assert_eq!(named_game_ids(ExtraSyncMode::Game(1942)), Some(vec![1942]));
}

#[test]
fn replacing_relations() {
    let plan = replace_relations("game_genres", "genre_id", 5, &vec![12, 31]);
    assert_eq!(
        plan,
        vec![
            st("DELETE FROM game_genres WHERE game_id = ?1", vec![ival(5)]),
            st("INSERT INTO game_genres (game_id, genre_id) VALUES (?1, ?2)", vec![ival(5), ival(12)]),
            st("INSERT INTO game_genres (game_id, genre_id) VALUES (?1, ?2)", vec![ival(5), ival(31)]),
        ]
    );
}

#[test]
fn replacing_language_supports_companies_and_names() {
    let langs = replace_language_supports(
        6,
        &vec![IgdbLanguageSupport { id: 1, language: 7, language_support_type: 2 }],
    );
    assert_eq!(langs[0], st("DELETE FROM game_language_supports WHERE game_id = ?1", vec![ival(6)]));
    assert_eq!(
        langs[1],
        st(
            "INSERT INTO game_language_supports (game_id, language_support_id, language_id, language_support_type_id)
         VALUES (?1, ?2, ?3, ?4)",
            vec![ival(6), ival(1), ival(7), ival(2)]
        )
    );
    let companies = replace_involved_companies(6, &vec![IgdbInvolvedCompany { id: 9, company: 70 }]);
    assert_eq!(
        companies[1],
        st(
            "INSERT INTO game_involved_companies (game_id, involved_company_id, company_id)
         VALUES (?1, ?2, ?3)",
            vec![ival(6), ival(9), ival(70)]
        )
    );
    let names = replace_alternative_names(6, &vec![IgdbAlternativeName { id: 4, name: "RE5".into() }]);
    assert_eq!(
        names[1],
        st(
            "INSERT INTO game_alternative_names (game_id, alternative_name_id, name)
         VALUES (?1, ?2, ?3)",
            vec![ival(6), ival(4), txt("RE5")]
        )
    );
    assert_eq!(names[0], st("DELETE FROM game_alternative_names WHERE game_id = ?1", vec![ival(6)]));
}

fn sample_search(id: i64) -> IgdbGameSearchImprove {
    IgdbGameSearchImprove {
        id,
        name: "Game".into(),
        genres: vec![1, 2],
        keywords: vec![],
        language_supports: vec![],
        themes: vec![3],
        involved_companies: vec![IgdbInvolvedCompany { id: 5, company: 6 }],
        alternative_names: vec![],
        updated_at: 123,
    }
}

#[test]
fn storing_search_data() {
    let plan = replace_game_relations(&sample_search(10));
    assert_eq!(plan.len(), 1 + 3 + 1 + 1 + 2 + 2 + 1);
    assert_eq!(
        plan[0],
        st(
            "INSERT INTO search_improve_games (game_id, updated_at) VALUES (?1, ?2)
         ON CONFLICT(game_id) DO UPDATE SET updated_at = excluded.updated_at",
            vec![ival(10), ival(123)]
        )
    );
    assert_eq!(plan[1].sql, "DELETE FROM game_genres WHERE game_id = ?1");
    assert_eq!(plan[4].sql, "DELETE FROM game_keywords WHERE game_id = ?1");
    assert_eq!(plan[5].sql, "DELETE FROM game_language_supports WHERE game_id = ?1");
    assert_eq!(plan[6].sql, "DELETE FROM game_themes WHERE game_id = ?1");
    assert_eq!(plan[7].params, vec![ival(10), ival(3)]);
    assert_eq!(plan[8].sql, "DELETE FROM game_involved_companies WHERE game_id = ?1");
    assert_eq!(plan[10].sql, "DELETE FROM game_alternative_names WHERE game_id = ?1");
    let batch = save_game_relations(&vec![sample_search(1), sample_search(2)]);
    assert_eq!(batch.len(), 2 * plan.len());
    assert_eq!(batch[plan.len()].params, vec![ival(2), ival(123)]);
}

#[test]
fn schema_change_forces_refetch() {
    assert!(!relations_schema_changed(false, false, false, false));
    assert!(relations_schema_changed(true, false, false, false));
    assert!(relations_schema_changed(false, true, false, false));
    assert!(relations_schema_changed(false, false, true, false));
    assert!(relations_schema_changed(false, false, false, true));
}
