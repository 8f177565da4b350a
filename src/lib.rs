//! Runs a candidate solution's build or test command inside a sandbox
//! directory, normalises what the toolchain reported into a
//! `(success, message)` verdict, and memoises verdicts under a key derived
//! from the command and the sandbox's source-defining files.
//!
//! The library holds the decisions; the caller performs the file reads and
//! the process spawn that the decisions ask for.

pub mod cache;
pub mod command;
pub mod entry;
pub mod environment;
pub mod executor;
pub mod key;
pub mod verdict;

pub use verdict::{only_error_message, verdict_text};
pub use entry::{decode_entry, encode_entry, verdict_of_decoded};
pub use cache::Cache;
pub use environment::Lang;
pub use command::split_words;
pub use key::cache_key;
pub use executor::{lookup, nothing_to_run, record, Invocation, Lookup, Outcome};
