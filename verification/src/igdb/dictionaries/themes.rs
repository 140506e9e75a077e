//! Synchronisation of the theme dictionary.

use vstd::prelude::*;

use super::models::IgdbTheme;
use crate::sql::{integer, text, SqlParam, SqlValue};

verus! {

/// The IGDB endpoint of themes.
pub const THEMES_ENDPOINT: &'static str = "themes";

/// The fields asked of each theme.
pub const THEMES_FIELDS: &'static str = "name, slug, updated_at";

/// The table that holds the themes.
pub const THEMES_TABLE: &'static str = "themes";

/// The statement that creates the theme table.
pub const THEMES_TABLE_SQL: &'static str = "CREATE TABLE IF NOT EXISTS themes (
        id INTEGER PRIMARY KEY,
        name TEXT NOT NULL,
        slug TEXT NOT NULL,
        updated_at INTEGER NOT NULL
    );";

/// The statement that stores one theme, replacing an older copy.
pub const THEMES_INSERT_SQL: &'static str = "INSERT INTO themes (id, name, slug, updated_at) 
        VALUES (?1, ?2, ?3, ?4)
        ON CONFLICT(id) DO UPDATE SET
            name = excluded.name,
            slug = excluded.slug,
            updated_at = excluded.updated_at;";

/// The parameters of the insert statement for a theme.
pub fn theme_row(item: &IgdbTheme) -> (row: Vec<SqlValue>)
    ensures
        row.deep_view() == seq![
            SqlParam::Integer(item.id as int),
            SqlParam::Text(item.name@),
            SqlParam::Text(item.slug@),
            SqlParam::Integer(item.updated_at as int),
        ],
{
    let row = vec![integer(item.id), text(&item.name), text(&item.slug), integer(item.updated_at)];
    assert(row.deep_view() =~= seq![
        SqlParam::Integer(item.id as int),
        SqlParam::Text(item.name@),
        SqlParam::Text(item.slug@),
        SqlParam::Integer(item.updated_at as int),
    ]);
    row
}

} // verus!
