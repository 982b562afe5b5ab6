//! The rule sets of the prompt kinds: written-style prompts, selection-style
//! prompts, and chained prompts.

mod selected;
mod then;
mod written;

pub use selected::ExpandedSelectedFmtRules;
pub use selected::ExpandedSelectedRulesView;
pub use selected::SelectedFmtRules;
pub use selected::SelectedRulesView;
pub use then::ExpandedThenFmtRules;
pub use then::ThenFmtRules;
pub use written::ExpandedWrittenFmtRules;
pub use written::ExpandedWrittenRulesView;
pub use written::WrittenFmtRules;
pub use written::WrittenRulesView;
