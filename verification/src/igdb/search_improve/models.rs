//! Records of the search data of a game: its relations to the
//! dictionaries, its companies and its other names.

use vstd::prelude::*;

verus! {

/// The search data of a game.
#[derive(Debug, Clone)]
pub struct IgdbGameSearchImprove {
    pub id: i64,
    pub name: String,
    pub genres: Vec<i64>,
    pub keywords: Vec<i64>,
    pub language_supports: Vec<IgdbLanguageSupport>,
    pub themes: Vec<i64>,
    pub involved_companies: Vec<IgdbInvolvedCompany>,
    pub alternative_names: Vec<IgdbAlternativeName>,
    pub updated_at: i64,
}

/// The support of a language by a game.
#[derive(Debug, Clone)]
pub struct IgdbLanguageSupport {
    pub id: i64,
    pub language: i64,
    pub language_support_type: i64,
}

/// A company involved in a game.
#[derive(Debug, Clone)]
pub struct IgdbInvolvedCompany {
    pub id: i64,
    pub company: i64,
}

/// Another name of a game.
#[derive(Debug, Clone)]
pub struct IgdbAlternativeName {
    pub id: i64,
    pub name: String,
}

} // verus!
