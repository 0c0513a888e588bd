//! Type-safe wrappers for WebGL shader programs.
//!
//! A struct that lists a program's vertex attributes and uniforms is turned
//! into source code for three things: the program's lifecycle methods, a
//! vertex record with layout reflection, and a builder whose type records
//! which uniforms have been given a value, so that a draw call is accepted
//! only when every uniform was set exactly once.
//!
//! - [`syntax`] describes the annotated struct as plain values.
//! - [`parse`] validates the struct and gives the description of its
//!   program, or says why and where the struct is refused.
//! - [`gen`] describes the code to write and writes it.
//! - [`builder`] states what the written builder accepts, and proves that
//!   it refuses a setter called twice and a draw before every setter.
//! - [`text`] holds numerals, string literals, and the questions about Rust
//!   syntax that are put to `syn` and `heck`.
//! - [`draw`], [`index`], [`program`], [`traits`], [`types`] and
//!   [`constants`] hold what the written code relies on when it runs: the
//!   arithmetic of index selections, the keeping of resolved locations, the
//!   reflection trait, and the table of attribute value types.

pub mod builder;
pub mod constants;
pub mod draw;
pub mod gen;
pub mod index;
pub mod parse;
pub mod program;
pub mod syntax;
pub mod text;
pub mod traits;
pub mod types;

pub use draw::{resolve_range, Bound, BufferDataUsage, RenderPrimitiveType};
pub use traits::AttrStruct;
pub use types::AttributeType;
