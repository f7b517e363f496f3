pub mod shape_builder;
