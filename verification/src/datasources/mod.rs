pub mod configuration;
pub mod slack;
