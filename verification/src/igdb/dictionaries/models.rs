//! Records of the IGDB dictionary endpoints.

use vstd::prelude::*;

verus! {

/// A genre.
#[derive(Debug, Clone)]
pub struct IgdbGenre {
    pub id: i64,
    pub name: String,
    pub slug: String,
    pub updated_at: i64,
}

/// A keyword.
#[derive(Debug, Clone)]
pub struct IgdbKeyword {
    pub id: i64,
    pub name: String,
    pub slug: String,
    pub updated_at: i64,
}

/// A company.
#[derive(Debug, Clone)]
pub struct IgdbCompany {
    pub id: i64,
    pub name: String,
    pub slug: String,
    pub updated_at: i64,
}

/// A theme.
#[derive(Debug, Clone)]
pub struct IgdbTheme {
    pub id: i64,
    pub name: String,
    pub slug: String,
    pub updated_at: i64,
}

/// A language.
#[derive(Debug, Clone)]
pub struct IgdbLanguage {
    pub id: i64,
    pub name: String,
    pub updated_at: i64,
}

/// A source of external game records.
#[derive(Debug, Clone)]
pub struct IgdbSource {
    pub id: i64,
    pub name: String,
    pub updated_at: i64,
}

} // verus!
