pub mod button;
pub mod checkbox;
pub mod disclosure_toggle;
pub mod menu;
pub mod text_input;
pub mod slider;
pub mod spinbox;
pub mod splitter;
pub mod dialog;
