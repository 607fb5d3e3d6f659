pub mod ast;
pub mod tokenizer;
pub mod trace;
pub mod visitors;
