//! Exposes the traits whose methods callers almost always want in scope:
//! the prompting protocol and the format-rule builders.

pub use crate::Prompt;
pub use crate::Promptable;
pub use crate::format::FmtRule;
pub use crate::format::FmtRules;
pub use crate::format::Mergeable;
pub use crate::format::Partial;
