//! The deferred-deletion helper: a small shell script that removes the
//! binary once the process that runs from it has exited.
//!
//! The script is written under `/tmp` with the process id in its name, so
//! that two uninstalls running at once never write the same file. It waits a
//! second, removes the binary by force, and removes itself.

use vstd::prelude::*;
use vstd::string::*;
use crate::text::{decimal, has_substring, lemma_decimal_injective, occurs_at, push_decimal};

verus! {

/// The permissions of the helper file: its owner may read, write and run
/// it, everyone else may read and run it.
pub const HELPER_MODE: u32 = 0o755;

/// Where the helper of process `pid` is written.
pub open spec fn helper_path(pid: u32) -> Seq<char> {
    "/tmp/rps_uninstall_"@ + decimal(pid as nat) + ".sh"@
}

/// The script line that removes `target`: `rm -f "<target>"`.
pub open spec fn removal_line(target: Seq<char>) -> Seq<char> {
    "rm -f \""@ + target + "\"\n"@
}

/// The text of the helper that removes `target`.
pub open spec fn helper_script(target: Seq<char>) -> Seq<char> {
    "#!/bin/bash\nsleep 1\n"@ + removal_line(target) + "rm -f \"$0\"\n"@
}

/// The command a user runs by hand when elevated removal did not succeed.
pub open spec fn manual_command(target: Seq<char>) -> Seq<char> {
    "sudo rm "@ + target
}

/// Helper file names are unique per process id: two processes with
/// different ids never write the same helper file.
pub proof fn lemma_helper_path_injective(first: u32, second: u32)
    requires
        helper_path(first) == helper_path(second),
    ensures
        first == second,
{
    let head = "/tmp/rps_uninstall_"@;
    let tail = ".sh"@;
    let a = decimal(first as nat);
    let b = decimal(second as nat);
    assert((head + a + tail).len() == (head + b + tail).len());
    assert(a =~= b) by {
        assert forall|i: int| 0 <= i < a.len() implies a[i] == b[i] by {
            assert((head + a + tail)[head.len() + i] == a[i]);
            assert((head + b + tail)[head.len() + i] == b[i]);
        }
    }
    lemma_decimal_injective(first as nat, second as nat);
}

/// The helper names exactly the path it was made for: its removal line
/// holds `target` unchanged, and the script holds that line.
pub proof fn lemma_helper_script_names_target(target: Seq<char>)
    ensures
        has_substring(removal_line(target), target),
        has_substring(helper_script(target), removal_line(target)),
        has_substring(helper_script(target), target),
{
    let intro = "#!/bin/bash\nsleep 1\n"@;
    let open = "rm -f \""@;
    let line = removal_line(target);
    let script = helper_script(target);
    let i: int = intro.len() as int;
    let j: int = open.len() as int;
    assert(occurs_at(line, target, j)) by {
        assert(line.subrange(j, j + target.len()) =~= target);
    }
    assert(occurs_at(script, line, i)) by {
        assert(script.subrange(i, i + line.len()) =~= line);
    }
    assert(occurs_at(script, target, i + j)) by {
        assert(script.subrange(i + j, i + j + target.len()) =~= target);
    }
}

/// The deferred-deletion helper of one uninstall: the file to write and the
/// text to write into it.
#[derive(Debug, PartialEq, Eq)]
pub struct DeferredDeletionScript {
    /// Where the helper is written.
    pub path: String,
    /// The shell script.
    pub content: String,
}

/// What a helper is, as plain text.
pub struct DeferredDeletionScriptView {
    pub path: Seq<char>,
    pub content: Seq<char>,
}

impl View for DeferredDeletionScript {
    type V = DeferredDeletionScriptView;

    open spec fn view(&self) -> DeferredDeletionScriptView {
        DeferredDeletionScriptView { path: self.path@, content: self.content@ }
    }
}

/// The helper that process `pid` uses to remove `target`.
pub open spec fn helper_for(pid: u32, target: Seq<char>) -> DeferredDeletionScriptView {
    DeferredDeletionScriptView { path: helper_path(pid), content: helper_script(target) }
}

/// The path of the helper of process `pid`.
pub fn helper_path_for(pid: u32) -> (path: String)
    ensures
        path@ == helper_path(pid),
{
    let mut path = String::from_str("/tmp/rps_uninstall_");
    push_decimal(&mut path, pid);
    path.append(".sh");
    path
}

impl DeferredDeletionScript {
    /// The helper that process `pid` uses to remove the file at `target`.
    pub fn new(pid: u32, target: &str) -> (script: DeferredDeletionScript)
        ensures
            script@ == helper_for(pid, target@),
    {
        let mut content = String::from_str("#!/bin/bash\nsleep 1\n");
        content.append("rm -f \"");
        content.append(target);
        content.append("\"\n");
        content.append("rm -f \"$0\"\n");
        assert(content@ =~= helper_script(target@));
        DeferredDeletionScript { path: helper_path_for(pid), content }
    }
}

/// The command to run by hand to remove `target` with administrator rights.
pub fn manual_command_for(target: &str) -> (command: String)
    ensures
        command@ == manual_command(target@),
{
    let mut command = String::from_str("sudo rm ");
    command.append(target);
    command
}

} // verus!
