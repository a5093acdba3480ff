//! The compiler that builds the bootstrap interpreter, and the words it defines.
pub mod compiler;
pub mod dictionary;
pub mod words;
pub mod threaded;
pub mod installed;
pub mod bootstrapped_interpreter;
