pub mod authorization;
pub mod configuration;
pub mod conversations;
pub mod messages;
pub mod users;
