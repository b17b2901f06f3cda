//! The engine of a builder derive.
//!
//! Given the declaration of a record type, the engine lays out a companion
//! builder type: one storage field and one setter for each field of the
//! record, a constructor that starts with nothing set, and an assembly
//! routine that makes the record from what was set or names the first
//! required field that was not.
//!
//! A field declared as `Optional<T>` need not be set. A field declared as
//! `Collection<T>` with the annotation `builder(each = "name")` gets a setter
//! `name` that takes one `T` at a time. Every other field is set whole and
//! must be set.
//!
//! The engine reads and writes plain data. Parsing source text into a
//! declaration and writing a layout out as source text are left to the
//! caller.
//!
//! - [`syntax`] and [`record`] hold the declaration: type expressions,
//!   annotations, fields.
//! - [`parse_type`] reads the shape of a type and the directive of an
//!   annotation.
//! - [`field`] combines the two into the descriptor of a field.
//! - [`fragment`] holds the layout of a builder, and [`derive`] makes it.
//! - [`runtime`] says what a builder of a given layout does when it runs.
//! - [`laws`] proves what holds of every record from declaration to
//!   assembly.

pub mod derive;
pub mod field;
pub mod fragment;
pub mod laws;
pub mod parse_type;
pub mod record;
pub mod runtime;
pub mod syntax;
