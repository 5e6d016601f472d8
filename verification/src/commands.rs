//! The top-level operations behind the tool's subcommands, as far as
//! they compute; the shell parses arguments, performs the actions and
//! prints.

pub mod inspect;
pub mod script;
pub mod search;

pub use inspect::inspect;
pub use inspect::Inspection;
pub use script::script;
pub use script::ScriptPlanEntry;
pub use search::search;
pub use search::SearchResults;
