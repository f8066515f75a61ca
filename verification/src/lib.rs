//! A small statically-typed scripting language: tokenizer, recursive-descent
//! parser, tree-walking interpreter, and a native code generator.
pub mod arena;
pub mod ast;
pub mod codegen;
pub mod eval;
pub mod interpreter;
pub mod laws;
pub mod parser;
pub mod strmap;
pub mod token;
pub mod tokenizer;
pub mod value;
