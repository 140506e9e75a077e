pub mod genres;
pub mod language;
pub mod models;
pub mod sources;
pub mod themes;
