pub mod auth;
pub mod database;
pub mod dictionaries;
pub mod extra;
pub mod games;
pub mod headers;
pub mod pipeline;
pub mod search_improve;
