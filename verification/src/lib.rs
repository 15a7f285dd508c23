//! Small worked pieces of everyday code, each with a contract that says
//! exactly what it returns:
//!
//! - [`text`]: integers written in base ten and sixteen, texts compared;
//! - [`formatting`]: types that show themselves as text;
//! - [`primitives`]: tuples and slices;
//! - [`custom_types`]: enums, a linked list, a constant;
//! - [`error_handling`]: numbers read from text, and why a text is none;
//! - [`conversion`]: `From`, `TryFrom` and a type put into words;
//! - [`flow_control`]: what is said of a value, by branch and by match;
//! - [`functions`]: a counting game, methods, functions as arguments;
//! - [`scoping`]: references handed in and handed back;
//! - [`traits`]: two traits that share a method name.

pub mod conversion;
pub mod custom_types;
pub mod error_handling;
pub mod flow_control;
pub mod formatting;
pub mod functions;
pub mod primitives;
pub mod scoping;
pub mod text;
pub mod traits;
