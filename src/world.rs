pub mod block;
pub mod map;
pub mod world;
