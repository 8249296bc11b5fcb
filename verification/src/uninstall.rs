//! The self-uninstall routine, as a machine that decides and never acts.
//!
//! Removing the running binary means asking the operating system for many
//! things in turn: where the binary is, what the user answers, what the
//! package registry knows, whether a file could be removed. None of that can
//! be done here. `Uninstaller` holds the routine's state; `Uninstaller::step`
//! takes the reply to the action it asked for last and returns the next
//! action. The caller performs each action and hands back the reply, until
//! the action is `Action::Finish`.
//!
//! The phases follow the routine's stages. `Locating` is the start.
//! `Confirming` waits for the user where the location is not a standard
//! one. `QueryingRegistry` to `ForgettingRecord` clean the install record,
//! with the location resolved. `RemovingElevated` to `LaunchingHelper`
//! attempt the deletion, with the record cleaned. `Done` is the end, after
//! the deletion was attempted or after the user declined.
//!
//! `protocol` holds the actions, the replies and the endings. `routine`
//! holds `advance`, the whole routine as a mathematical function.
//! `machine` holds its executable form, and `laws` what is proved of it.

pub mod laws;
pub mod machine;
pub mod protocol;
pub mod routine;

pub use machine::{is_affirmative, Uninstaller};
pub use protocol::{
    exit_status_of, restart_advised, Action, Ending, Outcome, Phase, Platform, Reply,
};
