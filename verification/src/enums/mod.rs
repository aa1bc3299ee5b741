pub mod request;
pub mod section;
pub mod user_mode;
pub mod widgets;
