pub mod color_edit;
pub mod default_factory;
pub mod fields;
pub mod reflect;
pub mod path;
