pub mod client;
pub mod models;
pub mod parser;
pub mod storage;
