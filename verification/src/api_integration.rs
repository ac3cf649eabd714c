pub mod spotify;
pub mod youtube;
