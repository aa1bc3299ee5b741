pub mod configuration;
pub mod dir;
