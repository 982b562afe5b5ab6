//! The promptable types: the leaf prompts and the combinators that wrap
//! them.

mod bool;
mod formatted;
mod many_written;
mod map;
mod max_tries;
mod password;
mod selected;
mod separated;
mod then;
mod until;
mod written;

pub use self::bool::Bool;
pub use self::bool::bool;
pub use self::bool::is_false_input;
pub use self::bool::is_true_input;
pub use formatted::Formatted;
pub use many_written::FromFields;
pub use map::Mapped;
pub use max_tries::MaxTries;
pub use max_tries::MaxTriesExceeded;
pub use many_written::ManyWritten;
pub use many_written::many_written;
pub use password::Password;
pub use password::password;
pub use selected::Selected;
pub use selected::list_lines;
pub use selected::selected;
pub use selected::selected_render;
pub use selected::title_after;
pub use separated::Separated;
pub use separated::parsed_fields;
pub use separated::separated;
pub use then::Flattenable;
pub use then::FromOutput;
pub use then::Then;
pub use then::prompt_twice;
pub use until::Until;
pub use until::lemma_until_inv;
pub use written::Written;
pub use written::WrittenInner;
pub use written::consumed_console;
pub use written::read_line_of;
pub use written::written;
pub use written::written_render;
