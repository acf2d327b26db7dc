//! Erasure of TypeScript-only syntax from a scope-resolved syntax tree, with
//! the text writer that prints the result and the rewriting of core-js
//! entry imports.

pub mod ast;
pub mod class;
pub mod class_fields;
pub mod corejs_entry;
pub mod enums;
pub mod erase;
pub mod idempotence;
pub mod imports;
pub mod js_only;
pub mod marks;
pub mod strip;
pub mod text_writer;
pub mod usage;
