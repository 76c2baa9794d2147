//! What each command of the tool decides, as steps for the caller.

pub mod add;
pub mod list;
pub mod run;

pub use add::{cmd_add, cmd_add_changing};
pub use list::cmd_list;
pub use run::cmd_run;
