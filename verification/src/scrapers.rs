pub mod jeja;
pub mod youtube;
