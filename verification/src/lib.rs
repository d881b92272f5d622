//! A source-module bundler.
//!
//! Given an entry module, the bundler finds every module that the entry
//! imports, directly or through other modules, normalizes each one, and
//! renders a single script that runs like the program it was given, import
//! cycles included.
//!
//! A compile has two stages. The build stage ([`builder`]) grows the module
//! graph ([`graph`]) from the entry: it parses and normalizes a module
//! ([`syntax`]), resolves the specifiers it imports to module identifiers
//! ([`resolve`]) and schedules what it has not seen. It does not read the
//! text of a module itself; its caller does, one module at a time, or hands
//! over all texts at once. The generate stage ([`runtime`]) rewrites the
//! imports of every module to identifiers, turns import and export syntax
//! into calls of the loader, prints each module and renders the bundle.
//!
//! Parsing, the transform passes, printing and file lookup are the work of
//! other crates. What they return is taken as it comes; what the bundler
//! decides around them is proved: which modules the graph holds when a build
//! ends ([`laws`], [`reach`]), that a build over given texts ends, and the
//! text of the bundle to the letter.

pub mod builder;
pub mod context;
pub mod error;
pub mod graph;
pub mod laws;
pub mod paths;
pub mod reach;
pub mod resolve;
pub mod runtime;
pub mod syntax;
pub mod table;
