//! Function targets: a function of the model together with its rewritable bytecode.
pub mod annotations;
pub mod bytecode;
pub mod display;
pub mod function_data;
pub mod function_target;
pub mod laws;
pub mod model;
pub mod text;
