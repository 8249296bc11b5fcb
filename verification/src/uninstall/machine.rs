//! The routine in executable form: `Uninstaller::step` computes `advance`.

use vstd::prelude::*;
use crate::helper::{helper_path_for, DeferredDeletionScript};
use crate::location::{classify, needs_elevation, BinaryLocation, InstallClass};
use crate::registry::{has_record, package_identifier, registered_files};
use crate::text::{chars_of, texts, trim_bounds, trimmed};
use crate::uninstall::protocol::{
    action_views, reply_views, Action, ActionView, Ending, Outcome, Phase, Platform, Reply,
};
use crate::uninstall::routine::{
    advance, affirmative, begin_cleaning, begin_deletion, finish, first_visited, initial,
    next_file, run, settle, UninstallerView,
};

verus! {

/// The state of one uninstall.
#[derive(Debug)]
pub struct Uninstaller {
    platform: Platform,
    pid: u32,
    phase: Phase,
    location: BinaryLocation,
    pending: Vec<String>,
}

impl View for Uninstaller {
    type V = UninstallerView;

    closed spec fn view(&self) -> UninstallerView {
        UninstallerView {
            platform: self.platform,
            pid: self.pid,
            phase: self.phase,
            location: self.location@,
            pending: texts(self.pending@),
        }
    }
}

/// Whether the answer is a yes.
pub fn is_affirmative(answer: &str) -> (yes: bool)
    ensures
        yes == affirmative(answer@),
{
    let cs = chars_of(answer);
    let (from, to) = trim_bounds(&cs);
    let ghost t = trimmed(answer@);
    if to - from != 1 {
        assert(t.len() != 1);
        assert(seq!['y'].len() == 1 && seq!['Y'].len() == 1);
        return false;
    }
    assert(t[0] == cs@[from as int]);
    assert(t =~= seq![cs@[from as int]]);
    cs[from] == 'y' || cs[from] == 'Y'
}

impl Uninstaller {
    /// A new uninstall on `platform`, run by process `pid`. The first
    /// action is to resolve the binary's location.
    pub fn begin(platform: Platform, pid: u32) -> (start: (Uninstaller, Action))
        ensures
            start.0@ == initial(platform, pid),
            start.1@ == ActionView::ResolveLocation,
    {
        let state = Uninstaller {
            platform,
            pid,
            phase: Phase::Locating,
            location: BinaryLocation::new(String::new()),
            pending: Vec::new(),
        };
        assert(state@.pending =~= Seq::empty());
        (state, Action::ResolveLocation)
    }

    /// What the routine is waiting for.
    pub fn phase(&self) -> (phase: Phase)
        ensures
            phase == self@.phase,
    {
        self.phase
    }

    /// The ending, once the routine has ended.
    pub fn ending(&self) -> (ending: Option<Ending>)
        ensures
            ending == match self@.phase {
                Phase::Done(e) => Some(e),
                _ => None,
            },
    {
        match self.phase {
            Phase::Done(e) => Some(e),
            _ => None,
        }
    }

    /// The host.
    pub fn platform(&self) -> (platform: Platform)
        ensures
            platform == self@.platform,
    {
        self.platform
    }

    /// The binary's location; the empty path until it is resolved.
    pub fn location(&self) -> (location: &BinaryLocation)
        ensures
            location@ == self@.location,
    {
        &self.location
    }

    /// The same state in another phase.
    fn at(self, phase: Phase) -> (next: Uninstaller)
        ensures
            next@ == (UninstallerView { phase, ..self@ }),
    {
        let Uninstaller { platform, pid, phase: _, location, pending } = self;
        Uninstaller { platform, pid, phase, location, pending }
    }

    /// Ends the routine.
    fn finish(self, ending: Ending) -> (next: (Uninstaller, Action))
        ensures
            (next.0@, next.1@) == finish(self@, ending),
    {
        (self.at(Phase::Done(ending)), Action::Finish(ending))
    }

    /// Begins the deletion of the binary.
    fn begin_deletion(self) -> (next: (Uninstaller, Action))
        ensures
            (next.0@, next.1@) == begin_deletion(self@),
    {
        let target = self.location.as_str().to_owned();
        let elevated = match self.platform {
            Platform::Windows => false,
            _ => needs_elevation(&self.location),
        };
        if elevated {
            (self.at(Phase::RemovingElevated), Action::RemoveElevated(target))
        } else {
            (self.at(Phase::RemovingDirect), Action::RemoveBinary(target))
        }
    }

    /// Begins the cleaning of the install record.
    fn begin_cleaning(self) -> (next: (Uninstaller, Action))
        ensures
            (next.0@, next.1@) == begin_cleaning(self@),
    {
        match self.platform {
            Platform::MacOs => (self.at(Phase::QueryingRegistry), Action::QueryRegistry),
            _ => self.begin_deletion(),
        }
    }

    /// Turns to the next registered file, or to the record itself.
    fn next_file(self) -> (next: (Uninstaller, Action))
        ensures
            (next.0@, next.1@) == next_file(self@),
    {
        if self.pending.len() > 0 {
            let path = self.pending[0].clone();
            (self.at(Phase::ProbingFile), Action::ProbeFile(path))
        } else {
            let id = package_identifier().to_owned();
            (self.at(Phase::ForgettingRecord), Action::ForgetRecord(id))
        }
    }

    /// Strikes the first pending file off the list.
    fn first_visited(self) -> (next: Uninstaller)
        ensures
            next@ == first_visited(self@),
    {
        let Uninstaller { platform, pid, phase, location, mut pending } = self;
        if pending.len() > 0 {
            let ghost before = pending@;
            pending.remove(0);
            assert(texts(pending@) =~= texts(before).drop_first());
        }
        Uninstaller { platform, pid, phase, location, pending }
    }

    /// Takes the files of the install record as the ones to visit.
    fn with_pending(self, pending: Vec<String>) -> (next: Uninstaller)
        ensures
            next@ == (UninstallerView { pending: texts(pending@), ..self@ }),
    {
        let Uninstaller { platform, pid, phase, location, pending: _ } = self;
        Uninstaller { platform, pid, phase, location, pending }
    }

    /// Takes the path that the system reported as the binary's location.
    fn located(self, path: String) -> (next: Uninstaller)
        ensures
            next@ == (UninstallerView { location: path@, ..self@ }),
    {
        let Uninstaller { platform, pid, phase, location: _, pending } = self;
        Uninstaller { platform, pid, phase, location: BinaryLocation::new(path), pending }
    }

    /// Takes the reply to the action asked for last; returns the state to
    /// go on with and the action to perform next.
    pub fn step(self, reply: Reply) -> (next: (Uninstaller, Action))
        ensures
            (next.0@, next.1@) == advance(self@, reply@),
    {
        match self.phase {
            Phase::Locating => match reply {
                Reply::Failed => self.finish(Ending::LocationUnavailable),
                Reply::Succeeded(path) => {
                    let shown = path.clone();
                    let located = self.located(path);
                    match classify(&located.location) {
                        InstallClass::SystemInstall => located.begin_cleaning(),
                        InstallClass::UserInstall => (
                            located.at(Phase::Confirming),
                            Action::AskConfirmation(shown),
                        ),
                    }
                },
            },
            Phase::Confirming => match reply {
                Reply::Failed => self.finish(Ending::ConfirmationUnreadable),
                Reply::Succeeded(answer) => if is_affirmative(answer.as_str()) {
                    self.begin_cleaning()
                } else {
                    self.finish(Ending::UserCancelled)
                },
            },
            Phase::QueryingRegistry => match reply {
                Reply::Failed => self.begin_deletion(),
                Reply::Succeeded(listing) => if has_record(listing.as_str()) {
                    let id = package_identifier().to_owned();
                    (self.at(Phase::ListingFiles), Action::ListFiles(id))
                } else {
                    self.begin_deletion()
                },
            },
            Phase::ListingFiles => {
                let pending = match reply {
                    Reply::Failed => Vec::new(),
                    Reply::Succeeded(files) => registered_files(files.as_str()),
                };
                assert(reply@ is Failed ==> texts(pending@) =~= Seq::empty());
                self.with_pending(pending).next_file()
            },
            Phase::ProbingFile => {
                let exists = match reply {
                    Reply::Failed => false,
                    Reply::Succeeded(_) => true,
                };
                if self.pending.len() > 0 && exists {
                    let path = self.pending[0].clone();
                    (self.at(Phase::RemovingFile), Action::RemoveFile(path))
                } else {
                    self.first_visited().next_file()
                }
            },
            Phase::RemovingFile => self.first_visited().next_file(),
            Phase::ForgettingRecord => self.begin_deletion(),
            Phase::RemovingElevated => match reply {
                Reply::Failed => self.finish(Ending::Finished(Outcome::ElevationFailed)),
                Reply::Succeeded(_) => self.finish(Ending::Finished(Outcome::Deleted)),
            },
            Phase::RemovingDirect => match reply {
                Reply::Succeeded(_) => self.finish(Ending::Finished(Outcome::Deleted)),
                Reply::Failed => match self.platform {
                    Platform::Windows => self.finish(
                        Ending::Finished(Outcome::ManualActionRequired),
                    ),
                    _ => {
                        let script = DeferredDeletionScript::new(self.pid, self.location.as_str());
                        (self.at(Phase::WritingHelper), Action::WriteHelper(script))
                    },
                },
            },
            Phase::WritingHelper => match reply {
                Reply::Failed => self.finish(Ending::Finished(Outcome::ManualActionRequired)),
                Reply::Succeeded(_) => {
                    let helper = helper_path_for(self.pid);
                    (self.at(Phase::MarkingHelper), Action::MarkExecutable(helper))
                },
            },
            Phase::MarkingHelper => {
                let helper = helper_path_for(self.pid);
                (self.at(Phase::LaunchingHelper), Action::LaunchHelper(helper))
            },
            Phase::LaunchingHelper => match reply {
                Reply::Failed => self.finish(Ending::Finished(Outcome::ManualActionRequired)),
                Reply::Succeeded(_) => self.finish(Ending::Finished(Outcome::DeferredDeleted)),
            },
            Phase::Done(ending) => (self, Action::Finish(ending)),
        }
    }

    /// Takes a whole sequence of replies, one step each; returns the state
    /// they leave and the actions they drew, in order.
    pub fn replay(self, replies: Vec<Reply>) -> (end: (Uninstaller, Vec<Action>))
        ensures
            end.0@ == settle(self@, reply_views(replies@)),
            action_views(end.1@) == run(self@, reply_views(replies@)),
    {
        let ghost start = self@;
        let ghost all = reply_views(replies@);
        let mut state = self;
        let mut rest = replies;
        let mut actions: Vec<Action> = Vec::new();
        assert(action_views(actions@) + run(state@, reply_views(rest@)) =~= run(start, all));
        while rest.len() > 0
            invariant
                settle(start, all) == settle(state@, reply_views(rest@)),
                run(start, all) == action_views(actions@) + run(state@, reply_views(rest@)),
            decreases rest.len(),
        {
            let ghost before = state@;
            let ghost waiting = reply_views(rest@);
            let ghost drawn = action_views(actions@);
            let reply = rest.remove(0);
            assert(waiting[0] == reply@);
            assert(waiting.drop_first() =~= reply_views(rest@));
            let (next, action) = state.step(reply);
            state = next;
            actions.push(action);
            assert(action_views(actions@) =~= drawn.push(advance(before, waiting[0]).1));
            assert(action_views(actions@) + run(state@, reply_views(rest@)) =~= drawn + run(
                before,
                waiting,
            ));
        }
        assert(run(state@, reply_views(rest@)) =~= Seq::<ActionView>::empty());
        assert(action_views(actions@) =~= run(start, all));
        (state, actions)
    }
}

} // verus!
