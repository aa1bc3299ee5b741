pub mod block;
pub mod channel;
pub mod channels;
pub mod input;
pub mod loading;
pub mod messages;
pub mod section_data;
pub mod status_line;
