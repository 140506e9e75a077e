pub mod games;
