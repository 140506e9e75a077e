//! Names of the places where the application keeps its data.

use vstd::prelude::*;

verus! {

/// The qualifier of the application's data directory.
pub const APP_QUALIFIER: &'static str = "com";

/// The organisation of the application's data directory.
pub const APP_ORGANIZATION: &'static str = "Babell";

/// The application name of its data directory.
pub const APP_NAME: &'static str = "Babell";

/// The directory, below the data directory, of the game catalogue.
pub const CATALOG_DIR: &'static str = "catalog";

/// The database file of the game catalogue.
pub const DATABASE_FILE: &'static str = "igdb.db";

} // verus!
