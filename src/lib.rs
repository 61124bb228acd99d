//! Generation of `mod` and `use` declarations for source files that live
//! outside a crate's own module tree.
//!
//! The [`builder::UseBuilder`] accumulates module and import declarations and
//! renders them as text; [`script_builder::UseBuilder`] is the single-list
//! variant meant for build scripts. [`inline`] holds the annotation syntax
//! pass: a token rewrite that lets `mod` serve as an attribute name and as a
//! call, and the expansion of the parsed items into module declarations.
//! Resolving paths on disk, expanding glob patterns, parsing tokens into
//! items and writing the rendered text out are left to the caller.
mod text;
mod path;
pub mod builder;
pub mod script_builder;
pub mod inline;
