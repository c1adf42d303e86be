//! A compiler library for the ExpL teaching language targeting the XSM machine:
//! type tables, symbol tables, semantic validation and code generation.
pub mod list;
pub mod types;
pub mod strs;
pub mod parserlib;
pub mod state;
pub mod validation;
pub mod codegen;
pub mod linker;
pub mod exprtree;
