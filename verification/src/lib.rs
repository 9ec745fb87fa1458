//! Adapters that render the full chain of causes of an error, either as one
//! line of text with the causes separated by `: `, or as an array that holds
//! one string per error of the chain.
//!
//! An error is a [`ChainedError`]: a display string and, optionally, the
//! error that caused it. Its view is its chain, the sequence of the display
//! strings from the error itself down to the deepest cause, and the contract
//! of every function here is stated over that sequence:
//!
//! - [`InlineErrorChain`] borrows an error and renders the chain as one
//!   string, [`render::inline_text`] of the chain;
//! - [`ArrayErrorChain`] borrows an error and renders the chain as a vector
//!   of strings, for loggers that take structured values, and as the inline
//!   text for those that do not;
//! - [`OwnedErrorChain`] is the snapshot of a chain that owns its strings
//!   and renders as the error does that it was taken from.
//!
//! Nothing here logs or serializes: the adapters hand out strings, and the
//! caller gives them to its logger. The module [`laws`] proves how the
//! renderings relate to each other.

pub mod chain;
pub mod inline;
pub mod key;
pub mod laws;
pub mod nested_values;
pub mod render;

pub use chain::ChainedError;
pub use inline::InlineErrorChain;
pub use key::implicit_key;
pub use nested_values::ArrayErrorChain;
pub use nested_values::OwnedErrorChain;
