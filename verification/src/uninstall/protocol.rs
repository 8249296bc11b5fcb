//! What the routine and its caller say to each other: the actions the
//! routine asks for, the replies it takes, and the ways it can end.

use vstd::prelude::*;
use crate::command::{words, Invocation, InvocationView};
use crate::helper::{DeferredDeletionScript, DeferredDeletionScriptView};

verus! {

/// The kinds of host the routine knows.
#[derive(Clone, Copy, Debug, PartialEq, Eq, Structural)]
pub enum Platform {
    /// Unix-like, with a package registry that records installed files.
    MacOs,
    /// Unix-like, without such a registry.
    Unix,
    /// Neither.
    Windows,
}

impl Platform {
    /// The host keeps install records that the routine must clean.
    pub open spec fn has_registry(self) -> bool {
        self == Platform::MacOs
    }

    /// The host removes system files through `sudo`, and a binary that
    /// cannot be removed while it runs is left to a helper script.
    pub open spec fn is_unix_like(self) -> bool {
        self != Platform::Windows
    }
}

/// How the attempt to delete the binary ended.
#[derive(Clone, Copy, Debug, PartialEq, Eq, Structural)]
pub enum Outcome {
    /// The binary is gone.
    Deleted,
    /// A detached helper will remove the binary once this process has exited.
    DeferredDeleted,
    /// Elevated removal did not succeed; the user has to run the command.
    ElevationFailed,
    /// The binary could not be removed and no helper could be set up.
    ManualActionRequired,
}

/// How the routine ended.
#[derive(Clone, Copy, Debug, PartialEq, Eq, Structural)]
pub enum Ending {
    /// The operating system could not say where the binary is.
    LocationUnavailable,
    /// The user's answer could not be read.
    ConfirmationUnreadable,
    /// The user declined to remove a binary outside the standard locations.
    UserCancelled,
    /// Deletion was attempted.
    Finished(Outcome),
}

/// The process exit status that goes with an ending: zero where the binary
/// is gone or will be, and where the user declined; one for every failure.
pub open spec fn exit_status(ending: Ending) -> i32 {
    match ending {
        Ending::UserCancelled => 0,
        Ending::Finished(Outcome::Deleted) => 0,
        Ending::Finished(Outcome::DeferredDeleted) => 0,
        _ => 1,
    }
}

/// Whether the user is told, at the end, to open a new terminal so that
/// the shell forgets where the command was: on a Unix-like host, after
/// every attempt but a failed elevation.
pub open spec fn advises_restart(platform: Platform, ending: Ending) -> bool {
    &&& platform.is_unix_like()
    &&& ending matches Ending::Finished(outcome)
    &&& outcome != Outcome::ElevationFailed
}

/// What the routine is waiting for.
#[derive(Clone, Copy, Debug, PartialEq, Eq, Structural)]
pub enum Phase {
    /// For the path of the running executable.
    Locating,
    /// For the user's answer to the confirmation question.
    Confirming,
    /// For the registry's list of packages.
    QueryingRegistry,
    /// For the list of files in the tool's install record.
    ListingFiles,
    /// For whether the first pending registered file exists.
    ProbingFile,
    /// For the removal of the first pending registered file.
    RemovingFile,
    /// For the registry to forget the record.
    ForgettingRecord,
    /// For the elevated removal of the binary.
    RemovingElevated,
    /// For the direct removal of the binary.
    RemovingDirect,
    /// For the helper script to be written.
    WritingHelper,
    /// For the helper script to be marked executable.
    MarkingHelper,
    /// For the helper script to be launched.
    LaunchingHelper,
    /// For nothing: the routine has ended.
    Done(Ending),
}

/// The reply to an action: it failed, or it succeeded and printed this.
/// For an action that yields no text the text is ignored. For a probe,
/// success means that the file exists.
#[derive(Debug, PartialEq, Eq)]
pub enum Reply {
    Failed,
    Succeeded(String),
}

/// A reply, as plain text.
pub enum ReplyView {
    Failed,
    Succeeded(Seq<char>),
}

impl View for Reply {
    type V = ReplyView;

    open spec fn view(&self) -> ReplyView {
        match self {
            Reply::Failed => ReplyView::Failed,
            Reply::Succeeded(text) => ReplyView::Succeeded(text@),
        }
    }
}

/// What the caller is asked to do next.
#[derive(Debug, PartialEq, Eq)]
pub enum Action {
    /// Find the path of the running executable.
    ResolveLocation,
    /// Warn that this path is not a standard location, ask whether to go
    /// on, and read one line.
    AskConfirmation(String),
    /// Ask the registry for its list of packages.
    QueryRegistry,
    /// Ask the registry for the files of this package.
    ListFiles(String),
    /// Find out whether this file exists.
    ProbeFile(String),
    /// Remove this registered file.
    RemoveFile(String),
    /// Make the registry forget this package.
    ForgetRecord(String),
    /// Remove this file with administrator rights.
    RemoveElevated(String),
    /// Remove this file.
    RemoveBinary(String),
    /// Write this helper script.
    WriteHelper(DeferredDeletionScript),
    /// Mark this file executable.
    MarkExecutable(String),
    /// Start this script detached, and do not wait for it: it waits for
    /// this process to exit.
    LaunchHelper(String),
    /// Report the ending and stop.
    Finish(Ending),
}

/// An action, as plain text.
pub enum ActionView {
    ResolveLocation,
    AskConfirmation(Seq<char>),
    QueryRegistry,
    ListFiles(Seq<char>),
    ProbeFile(Seq<char>),
    RemoveFile(Seq<char>),
    ForgetRecord(Seq<char>),
    RemoveElevated(Seq<char>),
    RemoveBinary(Seq<char>),
    WriteHelper(DeferredDeletionScriptView),
    MarkExecutable(Seq<char>),
    LaunchHelper(Seq<char>),
    Finish(Ending),
}

impl View for Action {
    type V = ActionView;

    open spec fn view(&self) -> ActionView {
        match self {
            Action::ResolveLocation => ActionView::ResolveLocation,
            Action::AskConfirmation(path) => ActionView::AskConfirmation(path@),
            Action::QueryRegistry => ActionView::QueryRegistry,
            Action::ListFiles(id) => ActionView::ListFiles(id@),
            Action::ProbeFile(path) => ActionView::ProbeFile(path@),
            Action::RemoveFile(path) => ActionView::RemoveFile(path@),
            Action::ForgetRecord(id) => ActionView::ForgetRecord(id@),
            Action::RemoveElevated(path) => ActionView::RemoveElevated(path@),
            Action::RemoveBinary(path) => ActionView::RemoveBinary(path@),
            Action::WriteHelper(script) => ActionView::WriteHelper(script@),
            Action::MarkExecutable(path) => ActionView::MarkExecutable(path@),
            Action::LaunchHelper(path) => ActionView::LaunchHelper(path@),
            Action::Finish(ending) => ActionView::Finish(*ending),
        }
    }
}

/// The views of a list of replies.
pub open spec fn reply_views(list: Seq<Reply>) -> Seq<ReplyView> {
    Seq::new(list.len(), |i: int| list[i]@)
}

/// The views of a list of actions.
pub open spec fn action_views(list: Seq<Action>) -> Seq<ActionView> {
    Seq::new(list.len(), |i: int| list[i]@)
}

impl ActionView {
    /// The action removes or creates something: a file, the install record,
    /// a process.
    pub open spec fn alters_system(self) -> bool {
        match self {
            ActionView::RemoveFile(_) => true,
            ActionView::ForgetRecord(_) => true,
            ActionView::RemoveElevated(_) => true,
            ActionView::RemoveBinary(_) => true,
            ActionView::WriteHelper(_) => true,
            ActionView::MarkExecutable(_) => true,
            ActionView::LaunchHelper(_) => true,
            _ => false,
        }
    }

    /// The action removes the binary from within this process.
    pub open spec fn removes_binary(self) -> bool {
        self is RemoveElevated || self is RemoveBinary
    }
}

/// The command line by which an action is performed, for the actions that
/// are performed by starting a program: the registry is `pkgutil`, elevated
/// removal is `sudo rm -f`, and the helper is run by `sh`. The other
/// actions are calls to the operating system.
pub open spec fn command_of(action: ActionView) -> Option<InvocationView> {
    match action {
        ActionView::QueryRegistry => Some(
            InvocationView { program: "pkgutil"@, arguments: seq!["--pkgs"@] },
        ),
        ActionView::ListFiles(id) => Some(
            InvocationView { program: "pkgutil"@, arguments: seq!["--files"@, id] },
        ),
        ActionView::ForgetRecord(id) => Some(
            InvocationView { program: "pkgutil"@, arguments: seq!["--forget"@, id] },
        ),
        ActionView::RemoveElevated(path) => Some(
            InvocationView { program: "sudo"@, arguments: seq!["rm"@, "-f"@, path] },
        ),
        ActionView::LaunchHelper(path) => Some(
            InvocationView { program: "sh"@, arguments: seq![path] },
        ),
        _ => None,
    }
}

/// A command line or none, as plain text.
pub open spec fn command_view(command: Option<Invocation>) -> Option<InvocationView> {
    match command {
        Some(invocation) => Some(invocation@),
        None => None,
    }
}

impl Action {
    /// The command line by which this action is performed, if it is
    /// performed by starting a program.
    pub fn command(&self) -> (command: Option<Invocation>)
        ensures
            command_view(command) == command_of(self@),
    {
        match self {
            Action::QueryRegistry => {
                let arguments = vec!["--pkgs"];
                assert(words(arguments@) =~= seq!["--pkgs"@]);
                Some(Invocation::new("pkgutil", &arguments))
            },
            Action::ListFiles(id) => {
                let arguments = vec!["--files", id.as_str()];
                assert(words(arguments@) =~= seq!["--files"@, id@]);
                Some(Invocation::new("pkgutil", &arguments))
            },
            Action::ForgetRecord(id) => {
                let arguments = vec!["--forget", id.as_str()];
                assert(words(arguments@) =~= seq!["--forget"@, id@]);
                Some(Invocation::new("pkgutil", &arguments))
            },
            Action::RemoveElevated(path) => {
                let arguments = vec!["rm", "-f", path.as_str()];
                assert(words(arguments@) =~= seq!["rm"@, "-f"@, path@]);
                Some(Invocation::new("sudo", &arguments))
            },
            Action::LaunchHelper(path) => {
                let arguments = vec![path.as_str()];
                assert(words(arguments@) =~= seq![path@]);
                Some(Invocation::new("sh", &arguments))
            },
            _ => None,
        }
    }
}

/// Whether to tell the user, at the end, to open a new terminal.
pub fn restart_advised(platform: Platform, ending: Ending) -> (advised: bool)
    ensures
        advised == advises_restart(platform, ending),
{
    match platform {
        Platform::Windows => false,
        _ => match ending {
            Ending::Finished(Outcome::ElevationFailed) => false,
            Ending::Finished(_) => true,
            _ => false,
        },
    }
}

/// The exit status that goes with an ending.
pub fn exit_status_of(ending: Ending) -> (status: i32)
    ensures
        status == exit_status(ending),
{
    match ending {
        Ending::UserCancelled => 0,
        Ending::Finished(Outcome::Deleted) => 0,
        Ending::Finished(Outcome::DeferredDeleted) => 0,
        _ => 1,
    }
}

} // verus!
