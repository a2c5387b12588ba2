pub mod script_builder;
