//! Small composite types and the lines of text that describe their values.

pub mod decimal;
pub mod event;
pub mod status;
pub mod string_specs;
pub mod work;
