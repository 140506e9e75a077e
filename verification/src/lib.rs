pub mod flaresolverr;
pub mod igdb;
pub mod sql;
pub mod text;
pub mod utils;
