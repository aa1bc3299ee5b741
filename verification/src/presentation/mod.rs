pub mod screen;
pub mod widgets;
