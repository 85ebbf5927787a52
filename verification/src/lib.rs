pub mod countup;
pub mod dates;
pub mod laws;
pub mod render;
