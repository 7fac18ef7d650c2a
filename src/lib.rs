pub mod models;
pub mod world;
