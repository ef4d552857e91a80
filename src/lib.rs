//! Compilation of JSON Schema keywords into a tree of validators, and the
//! checking of instance values against that tree.
pub mod value;
pub mod primitive_type;
pub mod content;
pub mod pattern;
pub mod numeric;
pub mod validator;
pub mod compile;
pub mod theorems;
pub mod describe;
