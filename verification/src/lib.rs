//! Builder generation for record types.
//!
//! A type definition is described by [`Definition`]: its name and its shape.
//! For a struct with at least one named field, [`do_expand`] emits the source text of a
//! companion builder struct, in which every field is wrapped in
//! `std::option::Option`, together with an inherent `builder()` function on
//! the described type that returns the companion with every field `None`.
//! Any other shape, a struct in braces without a field among them, is
//! refused with [`ExpandError`].
//!
//! The module `derive` starts from the source text of the definition, which
//! `syn` parses. The module `laws` states what holds of every generated
//! builder. The module `command` holds a record type with its builder
//! written out.

pub mod command;
pub mod derive;
pub mod expand;
pub mod laws;
pub mod model;

pub use command::{Command, CommandBuilder};
pub use derive::{expand_parsed, DeriveError};
pub use expand::{
    builder_name, do_expand, generate_builder_struct_fields_def,
    generate_builder_struct_fields_init, get_field_from_derive_input,
};
pub use model::{Data, Definition, ExpandError, Field, Fields};
