pub mod keycode;
pub mod string;
