//! Run the scripts of a project manifest, and remove the tool that does so.
//!
//! The crate decides; it performs nothing. `launcher` turns what was read
//! from a manifest into the list a user chooses from, and a choice into the
//! command line of a package manager. `uninstall` is the routine by which
//! the running program removes its own binary, one decision per reply from
//! the operating system. The other modules hold what the two build on:
//! `scripts` and `manager` for the launcher; `location`, `registry` and
//! `helper` for the uninstall; `command` and `text` for both.
//!
//! Every function carries a contract over plain mathematical values, and
//! the laws that relate the functions are proved beside them.

pub mod command;
pub mod helper;
pub mod launcher;
pub mod location;
pub mod manager;
pub mod registry;
pub mod scripts;
pub mod text;
pub mod uninstall;
