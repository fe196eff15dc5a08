pub mod ast;
pub mod bytecode;
pub mod error;
pub mod ieee;
pub mod interner;
pub mod semck;
pub mod sym;
pub mod ty;
pub mod utils;
pub mod vm;
