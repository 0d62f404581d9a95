//! A directory-tree search engine: glob patterns for base names, a set of
//! independent filters over discovered entries, and a driver that turns a
//! walk into output lines and diagnostics.

pub mod config;
pub mod driver;
pub mod entry;
pub mod input;
pub mod matcher;
pub mod pattern;
pub mod text;

pub use crate::driver::{execute, Action};
pub use crate::entry::{Entry, EntryType, TraversalError};
pub use crate::input::{get_args, ConfigError, Input};
pub use crate::matcher::NameSet;
pub use crate::pattern::{glob_to_regex, name_regexes};
