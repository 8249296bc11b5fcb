//! The package manager that runs a script, and the command line that makes
//! it do so.

use vstd::prelude::*;
use crate::command::{words, Invocation, InvocationView};

verus! {

/// The package managers that can run a script.
#[derive(Clone, Copy, Debug, PartialEq, Eq, Structural)]
pub enum PackageManager {
    Yarn,
    Npm,
}

impl PackageManager {
    /// The name of the manager's executable.
    pub open spec fn program(self) -> Seq<char> {
        match self {
            PackageManager::Yarn => "yarn"@,
            PackageManager::Npm => "npm"@,
        }
    }

    /// The name of the manager's executable.
    pub fn program_name(self) -> (name: &'static str)
        ensures
            name@ == self.program(),
    {
        match self {
            PackageManager::Yarn => "yarn",
            PackageManager::Npm => "npm",
        }
    }
}

/// The manager to use: yarn where it is installed, npm otherwise. Npm is
/// the default and is not looked for; where it is missing too, starting it
/// fails and says so.
pub open spec fn preferred(yarn_found: bool) -> PackageManager {
    if yarn_found {
        PackageManager::Yarn
    } else {
        PackageManager::Npm
    }
}

/// The manager to use, given whether yarn was found.
pub fn choose_package_manager(yarn_found: bool) -> (manager: PackageManager)
    ensures
        manager == preferred(yarn_found),
{
    if yarn_found {
        PackageManager::Yarn
    } else {
        PackageManager::Npm
    }
}

/// Whether `which::which` finds an executable named `program`. The answer
/// depends on the search path, the working directory and the file system at
/// the moment of the call, so nothing is claimed of it.
#[verifier::external_body]
fn found_on_path(program: &str) -> (found: bool) {
    which::which(program).is_ok()
}

/// Looks for yarn's program on this machine and picks the manager
/// accordingly. The result is `preferred` of what the search found,
/// whatever that was.
pub fn detect_package_manager() -> (manager: PackageManager)
    ensures
        manager == preferred(true) || manager == preferred(false),
{
    choose_package_manager(found_on_path(PackageManager::Yarn.program_name()))
}

/// The command line that makes `manager` run `script`: the manager's
/// program with the two arguments `run` and the script's name.
pub open spec fn run_invocation(manager: PackageManager, script: Seq<char>) -> InvocationView {
    InvocationView { program: manager.program(), arguments: seq!["run"@, script] }
}

/// The command line that makes `manager` run `script`.
pub fn run_script_with(manager: PackageManager, script: &str) -> (invocation: Invocation)
    ensures
        invocation@ == run_invocation(manager, script@),
{
    let arguments = vec!["run", script];
    assert(words(arguments@) =~= seq!["run"@, script@]);
    Invocation::new(manager.program_name(), &arguments)
}

/// The command line that runs `script` with the manager found on this
/// machine.
pub fn run_script(script: &str) -> (invocation: Invocation)
    ensures
        invocation@ == run_invocation(PackageManager::Yarn, script@) || invocation@
            == run_invocation(PackageManager::Npm, script@),
{
    run_script_with(detect_package_manager(), script)
}

/// How the child process ended, as far as the launcher needs to know.
#[derive(Clone, Copy, Debug, PartialEq, Eq)]
pub enum ChildReport {
    /// The process could not be started.
    NotStarted,
    /// The process ran and ended, with success or not, and with an exit
    /// code unless a signal ended it.
    Exited { success: bool, code: Option<i32> },
}

} // verus!
