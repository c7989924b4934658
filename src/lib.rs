//! Location-independent aliases for the types that an item mentions.
//!
//! An item is walked once to give every distinct free type and trait bound in it an
//! alias slot in a table; the table then names, rewrites and re-exports those types so
//! that the item can be rebuilt anywhere else.
//!
//! - [`syntax`], [`tokens`]: the plain model of Rust syntax and tokens the library reads.
//! - [`signature`]: normalizing a path into the key its alias is filed under.
//! - [`map`]: the alias table; [`identify`]: discovery over an item.
//! - [`apply`]: rewriting syntax through the aliases; [`generic_args`]: substituting
//!   generic arguments; [`prune`]: reducing generic parameters to those used.
//! - [`emit`], [`visibility`]: the generated declarations and their visibilities.
//! - [`telety`], [`command`], [`crateify`]: an annotated item, the commands of its macro,
//!   and paths relative to the current crate.
//! - [`laws`]: properties that hold across calls.
pub mod syntax;
pub mod tokens;
pub mod error;
pub mod names;
pub mod signature;
pub mod map;
pub mod identify;
pub mod apply;
pub mod prune;
pub mod generic_args;
pub mod visibility;
pub mod emit;
pub mod crateify;
pub mod telety;
pub mod command;
pub mod laws;
