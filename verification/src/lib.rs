//! A compiler for MPLang, from text to the code of functions.
//!
//! A program goes through [`lexer`], [`parser`], [`lowering`], [`tycheck`],
//! [`monomorphize`], [`compiler`] and [`backend`], in this order.

pub mod ast;
pub mod backend;
pub mod compiler;
pub mod error;
pub mod hir;
pub mod lexer;
pub mod list;
pub mod lowering;
pub mod monomorphize;
pub mod parser;
pub mod symbol;
pub mod table;
pub mod text;
pub mod token;
pub mod tycheck;
pub mod tyhir;
