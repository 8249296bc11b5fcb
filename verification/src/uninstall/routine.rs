//! The routine as a mathematical function: `advance` takes a state and a
//! reply and gives the next state and the next action.

use vstd::prelude::*;
use crate::helper::{helper_for, helper_path};
use crate::location::{install_class, requires_elevation, InstallClass};
use crate::registry::{package_id, record_listed, registered_paths};
use crate::text::trimmed;
use crate::uninstall::protocol::{ActionView, Ending, Outcome, Phase, Platform, ReplyView};

verus! {

/// The state of one uninstall, as plain values.
pub struct UninstallerView {
    /// The host.
    pub platform: Platform,
    /// The id of the process that uninstalls itself.
    pub pid: u32,
    /// What the routine is waiting for.
    pub phase: Phase,
    /// The binary's path; empty until it is resolved.
    pub location: Seq<char>,
    /// The registered files that are still to be visited.
    pub pending: Seq<Seq<char>>,
}

/// The answer is a yes: a single `y` or `Y`, white space around it aside.
pub open spec fn affirmative(answer: Seq<char>) -> bool {
    trimmed(answer) == seq!['y'] || trimmed(answer) == seq!['Y']
}

/// The state before anything is known.
pub open spec fn initial(platform: Platform, pid: u32) -> UninstallerView {
    UninstallerView {
        platform,
        pid,
        phase: Phase::Locating,
        location: Seq::empty(),
        pending: Seq::empty(),
    }
}

/// The routine ends.
pub open spec fn finish(s: UninstallerView, ending: Ending) -> (UninstallerView, ActionView) {
    (UninstallerView { phase: Phase::Done(ending), ..s }, ActionView::Finish(ending))
}

/// The deletion begins: elevated where the host is Unix-like and the
/// location requires it, direct otherwise.
pub open spec fn begin_deletion(s: UninstallerView) -> (UninstallerView, ActionView) {
    if s.platform.is_unix_like() && requires_elevation(s.location) {
        (
            UninstallerView { phase: Phase::RemovingElevated, ..s },
            ActionView::RemoveElevated(s.location),
        )
    } else {
        (
            UninstallerView { phase: Phase::RemovingDirect, ..s },
            ActionView::RemoveBinary(s.location),
        )
    }
}

/// The cleaning of the install record begins, where the host has a
/// registry; elsewhere the deletion begins at once.
pub open spec fn begin_cleaning(s: UninstallerView) -> (UninstallerView, ActionView) {
    if s.platform.has_registry() {
        (UninstallerView { phase: Phase::QueryingRegistry, ..s }, ActionView::QueryRegistry)
    } else {
        begin_deletion(s)
    }
}

/// The next registered file is probed; when none is left the record is
/// forgotten.
pub open spec fn next_file(s: UninstallerView) -> (UninstallerView, ActionView) {
    if s.pending.len() > 0 {
        (UninstallerView { phase: Phase::ProbingFile, ..s }, ActionView::ProbeFile(s.pending[0]))
    } else {
        (
            UninstallerView { phase: Phase::ForgettingRecord, ..s },
            ActionView::ForgetRecord(package_id()),
        )
    }
}

/// The first pending file has been dealt with.
pub open spec fn first_visited(s: UninstallerView) -> UninstallerView {
    if s.pending.len() > 0 {
        UninstallerView { pending: s.pending.drop_first(), ..s }
    } else {
        s
    }
}

/// The routine: from a state and the reply to the action asked for last,
/// the next state and the next action.
///
/// - `Locating`: without a location the routine ends in
///   `LocationUnavailable`. With one, a standard install goes on to the
///   cleaning; any other location is first put to the user.
/// - `Confirming`: only an affirmative answer goes on to the cleaning. Any
///   other answer ends in `UserCancelled`, an unreadable one in
///   `ConfirmationUnreadable`.
/// - `QueryingRegistry`: a list that mentions the package leads to its file
///   list; a list that does not, or none at all, leads to the deletion.
/// - `ListingFiles`: each listed file is probed and, where it exists,
///   removed; whether a removal succeeds is not looked at. Then the record
///   is forgotten, also where no file list could be had, and whatever the
///   registry replies the deletion begins.
/// - `RemovingElevated`: success is `Deleted`, failure `ElevationFailed`.
/// - `RemovingDirect`: success is `Deleted`. Failure on a Unix-like host
///   leads to the helper script; elsewhere it is `ManualActionRequired`.
/// - `WritingHelper`, `MarkingHelper`, `LaunchingHelper`: the helper is
///   written, marked executable and launched. A helper that cannot be
///   written or launched is `ManualActionRequired`; a launched one is
///   `DeferredDeleted`. Whether marking succeeds is not looked at: the
///   helper is launched through the shell.
/// - `Done`: the ending is reported again.
pub open spec fn advance(s: UninstallerView, reply: ReplyView) -> (UninstallerView, ActionView) {
    match s.phase {
        Phase::Locating => match reply {
            ReplyView::Failed => finish(s, Ending::LocationUnavailable),
            ReplyView::Succeeded(path) => {
                let located = UninstallerView { location: path, ..s };
                if install_class(path) == InstallClass::SystemInstall {
                    begin_cleaning(located)
                } else {
                    (
                        UninstallerView { phase: Phase::Confirming, ..located },
                        ActionView::AskConfirmation(path),
                    )
                }
            },
        },
        Phase::Confirming => match reply {
            ReplyView::Failed => finish(s, Ending::ConfirmationUnreadable),
            ReplyView::Succeeded(answer) => if affirmative(answer) {
                begin_cleaning(s)
            } else {
                finish(s, Ending::UserCancelled)
            },
        },
        Phase::QueryingRegistry => match reply {
            ReplyView::Failed => begin_deletion(s),
            ReplyView::Succeeded(listing) => if record_listed(listing) {
                (
                    UninstallerView { phase: Phase::ListingFiles, ..s },
                    ActionView::ListFiles(package_id()),
                )
            } else {
                begin_deletion(s)
            },
        },
        Phase::ListingFiles => match reply {
            ReplyView::Failed => next_file(UninstallerView { pending: Seq::empty(), ..s }),
            ReplyView::Succeeded(files) => next_file(
                UninstallerView { pending: registered_paths(files), ..s },
            ),
        },
        Phase::ProbingFile => if s.pending.len() > 0 && reply is Succeeded {
            (
                UninstallerView { phase: Phase::RemovingFile, ..s },
                ActionView::RemoveFile(s.pending[0]),
            )
        } else {
            next_file(first_visited(s))
        },
        Phase::RemovingFile => next_file(first_visited(s)),
        Phase::ForgettingRecord => begin_deletion(s),
        Phase::RemovingElevated => match reply {
            ReplyView::Failed => finish(s, Ending::Finished(Outcome::ElevationFailed)),
            ReplyView::Succeeded(_) => finish(s, Ending::Finished(Outcome::Deleted)),
        },
        Phase::RemovingDirect => match reply {
            ReplyView::Succeeded(_) => finish(s, Ending::Finished(Outcome::Deleted)),
            ReplyView::Failed => if s.platform.is_unix_like() {
                (
                    UninstallerView { phase: Phase::WritingHelper, ..s },
                    ActionView::WriteHelper(helper_for(s.pid, s.location)),
                )
            } else {
                finish(s, Ending::Finished(Outcome::ManualActionRequired))
            },
        },
        Phase::WritingHelper => match reply {
            ReplyView::Failed => finish(s, Ending::Finished(Outcome::ManualActionRequired)),
            ReplyView::Succeeded(_) => (
                UninstallerView { phase: Phase::MarkingHelper, ..s },
                ActionView::MarkExecutable(helper_path(s.pid)),
            ),
        },
        Phase::MarkingHelper => (
            UninstallerView { phase: Phase::LaunchingHelper, ..s },
            ActionView::LaunchHelper(helper_path(s.pid)),
        ),
        Phase::LaunchingHelper => match reply {
            ReplyView::Failed => finish(s, Ending::Finished(Outcome::ManualActionRequired)),
            ReplyView::Succeeded(_) => finish(s, Ending::Finished(Outcome::DeferredDeleted)),
        },
        Phase::Done(ending) => (s, ActionView::Finish(ending)),
    }
}

/// The actions that a sequence of replies draws from the routine, one per
/// reply.
pub open spec fn run(s: UninstallerView, replies: Seq<ReplyView>) -> Seq<ActionView>
    decreases replies.len(),
{
    if replies.len() == 0 {
        Seq::empty()
    } else {
        seq![advance(s, replies[0]).1] + run(advance(s, replies[0]).0, replies.drop_first())
    }
}

/// The state in which a sequence of replies leaves the routine.
pub open spec fn settle(s: UninstallerView, replies: Seq<ReplyView>) -> UninstallerView
    decreases replies.len(),
{
    if replies.len() == 0 {
        s
    } else {
        settle(advance(s, replies[0]).0, replies.drop_first())
    }
}

} // verus!
