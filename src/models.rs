pub mod cube;
pub mod object;
