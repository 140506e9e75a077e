pub mod models;
pub mod sync;
