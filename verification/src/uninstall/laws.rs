//! What holds of every run of the routine.
//!
//! A run is a sequence of replies, handed to the routine one by one; `run`
//! collects the actions they draw. The laws speak of single steps, through
//! `advance`, or of whole runs, through `run`.

use vstd::prelude::*;
use crate::helper::{
    helper_for, helper_path, lemma_helper_path_injective, lemma_helper_script_names_target,
    removal_line,
};
use crate::location::{install_class, InstallClass};
use crate::text::has_substring;
use crate::uninstall::protocol::{
    exit_status, ActionView, Ending, Outcome, Phase, Platform, ReplyView,
};
use crate::uninstall::routine::{
    advance, affirmative, finish, initial, run, settle, UninstallerView,
};

verus! {

/// One action per reply.
pub proof fn lemma_run_len(s: UninstallerView, replies: Seq<ReplyView>)
    ensures
        run(s, replies).len() == replies.len(),
    decreases replies.len(),
{
    if replies.len() > 0 {
        lemma_run_len(advance(s, replies[0]).0, replies.drop_first());
    }
}

/// The action for a reply after the first is the one that the rest of the
/// run draws from the state after the first.
pub proof fn lemma_run_index(s: UninstallerView, replies: Seq<ReplyView>, i: int)
    requires
        0 <= i < replies.len(),
    ensures
        run(s, replies).len() == replies.len(),
        i == 0 ==> run(s, replies)[i] == advance(s, replies[0]).1,
        i > 0 ==> run(s, replies)[i] == run(advance(s, replies[0]).0, replies.drop_first())[i - 1],
{
    lemma_run_len(s, replies);
    lemma_run_len(advance(s, replies[0]).0, replies.drop_first());
}

/// Each action of a run is the routine's reaction to one reply, in the
/// state in which the replies before it have left the routine.
pub proof fn lemma_run_step(s: UninstallerView, replies: Seq<ReplyView>, k: int)
    requires
        0 <= k < replies.len(),
    ensures
        run(s, replies)[k] == advance(settle(s, replies.take(k)), replies[k]).1,
    decreases k,
{
    lemma_run_index(s, replies, k);
    let before = replies.take(k);
    if k == 0 {
        assert(before =~= Seq::<ReplyView>::empty());
    } else {
        let tail = replies.drop_first();
        lemma_run_step(advance(s, replies[0]).0, tail, k - 1);
        assert(before[0] == replies[0]);
        assert(before.drop_first() =~= tail.take(k - 1));
    }
}

/// The location is read once. No step asks for it again; it is set by the
/// reply to the first action and kept from then on, as are the host and
/// the process id.
pub proof fn lemma_location_is_read_once(s: UninstallerView, reply: ReplyView)
    ensures
        !(advance(s, reply).1 is ResolveLocation),
        s.phase != Phase::Locating ==> advance(s, reply).0.location == s.location,
        advance(s, reply).0.platform == s.platform,
        advance(s, reply).0.pid == s.pid,
{
}

/// The user is asked exactly where the binary is not a standard
/// install: the question is the reaction to such a location, and to
/// nothing else.
pub proof fn lemma_confirmation_guards_user_installs(s: UninstallerView, reply: ReplyView)
    ensures
        advance(s, reply).1 is AskConfirmation <==> s.phase == Phase::Locating && reply is Succeeded
            && install_class(reply->Succeeded_0) == InstallClass::UserInstall,
        advance(s, reply).1 is AskConfirmation ==> advance(s, reply).1
            == ActionView::AskConfirmation(reply->Succeeded_0),
{
}

/// Once the routine has ended, every further reply draws the same ending.
pub proof fn lemma_done_stays_done(s: UninstallerView, ending: Ending, replies: Seq<ReplyView>)
    requires
        s.phase == Phase::Done(ending),
    ensures
        run(s, replies).len() == replies.len(),
        forall|i: int| 0 <= i < replies.len() ==> run(s, replies)[i] == ActionView::Finish(ending),
    decreases replies.len(),
{
    lemma_run_len(s, replies);
    if replies.len() > 0 {
        lemma_done_stays_done(s, ending, replies.drop_first());
        assert forall|i: int| 0 <= i < replies.len() implies run(s, replies)[i]
            == ActionView::Finish(ending) by {
            lemma_run_index(s, replies, i);
        }
    }
}

/// A helper script is written only in reply to a direct removal that
/// failed, and only on a Unix-like host. A direct removal that succeeded
/// ends the routine in `Deleted`.
pub proof fn lemma_helper_follows_failed_removal(s: UninstallerView, reply: ReplyView)
    ensures
        advance(s, reply).1 is WriteHelper ==> s.phase == Phase::RemovingDirect && reply is Failed
            && s.platform.is_unix_like(),
        s.phase == Phase::RemovingDirect && reply is Succeeded ==> advance(s, reply) == finish(
            s,
            Ending::Finished(Outcome::Deleted),
        ),
{
}

/// Wherever a helper script is written in a run, the reply before it
/// was the failure of the binary's direct removal.
pub proof fn lemma_helper_is_written_after_failed_removal_only(
    s: UninstallerView,
    replies: Seq<ReplyView>,
    k: int,
)
    requires
        0 <= k < replies.len(),
        run(s, replies)[k] is WriteHelper,
    ensures
        settle(s, replies.take(k)).phase == Phase::RemovingDirect,
        replies[k] is Failed,
{
    lemma_run_step(s, replies, k);
    lemma_helper_follows_failed_removal(settle(s, replies.take(k)), replies[k]);
}

/// If the direct removal of the binary succeeds, no helper script is ever
/// written: the routine reports `Deleted`, with exit status zero, whatever
/// replies follow.
pub proof fn lemma_direct_success_writes_no_helper(s: UninstallerView, replies: Seq<ReplyView>)
    requires
        s.phase == Phase::RemovingDirect,
        replies.len() > 0,
        replies[0] is Succeeded,
    ensures
        run(s, replies).len() == replies.len(),
        forall|i: int|
            0 <= i < replies.len() ==> run(s, replies)[i] == ActionView::Finish(
                Ending::Finished(Outcome::Deleted),
            ),
        forall|i: int| 0 <= i < replies.len() ==> !(run(s, replies)[i] is WriteHelper),
        exit_status(Ending::Finished(Outcome::Deleted)) == 0,
{
    let ending = Ending::Finished(Outcome::Deleted);
    lemma_done_stays_done(advance(s, replies[0]).0, ending, replies.drop_first());
    assert forall|i: int| 0 <= i < replies.len() implies run(s, replies)[i] == ActionView::Finish(
        ending,
    ) by {
        lemma_run_index(s, replies, i);
    }
}

/// If the direct removal of the binary fails on a Unix-like host, the
/// routine writes the helper of this process, marks it executable,
/// launches it, and ends in `DeferredDeleted`. The helper's removal line
/// holds the binary's path unchanged. The reply to the marking does not
/// matter.
pub proof fn lemma_failed_removal_is_deferred(
    s: UninstallerView,
    written: Seq<char>,
    marked: ReplyView,
    launched: Seq<char>,
)
    requires
        s.phase == Phase::RemovingDirect,
        s.platform.is_unix_like(),
    ensures
        run(
            s,
            seq![
                ReplyView::Failed,
                ReplyView::Succeeded(written),
                marked,
                ReplyView::Succeeded(launched),
            ],
        ) == seq![
            ActionView::WriteHelper(helper_for(s.pid, s.location)),
            ActionView::MarkExecutable(helper_path(s.pid)),
            ActionView::LaunchHelper(helper_path(s.pid)),
            ActionView::Finish(Ending::Finished(Outcome::DeferredDeleted)),
        ],
        has_substring(helper_for(s.pid, s.location).content, removal_line(s.location)),
        has_substring(removal_line(s.location), s.location),
{
    lemma_helper_script_names_target(s.location);
    let r0 = ReplyView::Failed;
    let r1 = ReplyView::Succeeded(written);
    let r3 = ReplyView::Succeeded(launched);
    let replies = seq![r0, r1, marked, r3];
    let s1 = advance(s, r0).0;
    let s2 = advance(s1, r1).0;
    let s3 = advance(s2, marked).0;
    let s4 = advance(s3, r3).0;
    assert(replies.drop_first() =~= seq![r1, marked, r3]);
    assert(seq![r1, marked, r3].drop_first() =~= seq![marked, r3]);
    assert(seq![marked, r3].drop_first() =~= seq![r3]);
    assert(seq![r3].drop_first() =~= Seq::<ReplyView>::empty());
    assert(run(s4, Seq::<ReplyView>::empty()) =~= Seq::<ActionView>::empty());
    assert(run(s3, seq![r3]) =~= seq![advance(s3, r3).1]);
    assert(run(s2, seq![marked, r3]) =~= seq![advance(s2, marked).1, advance(s3, r3).1]);
    assert(run(s1, seq![r1, marked, r3]) =~= seq![
        advance(s1, r1).1,
        advance(s2, marked).1,
        advance(s3, r3).1,
    ]);
    assert(run(s, replies) =~= seq![
        advance(s, r0).1,
        advance(s1, r1).1,
        advance(s2, marked).1,
        advance(s3, r3).1,
    ]);
}

/// Two uninstalls that run at once, under different process ids, never
/// write the same helper file.
pub proof fn lemma_concurrent_helpers_differ(
    first: UninstallerView,
    second: UninstallerView,
    first_reply: ReplyView,
    second_reply: ReplyView,
)
    requires
        first.pid != second.pid,
        advance(first, first_reply).1 is WriteHelper,
        advance(second, second_reply).1 is WriteHelper,
    ensures
        advance(first, first_reply).1->WriteHelper_0.path != advance(
            second,
            second_reply,
        ).1->WriteHelper_0.path,
{
    if helper_path(first.pid) == helper_path(second.pid) {
        lemma_helper_path_injective(first.pid, second.pid);
    }
}

/// The routine has handed the deletion over to the helper, or has ended.
pub open spec fn past_removal(phase: Phase) -> bool {
    phase == Phase::WritingHelper || phase == Phase::MarkingHelper || phase
        == Phase::LaunchingHelper || phase is Done
}

/// Once a removal of the binary has been answered, this process never
/// tries to remove the binary again: not after the helper took over, and
/// not after the routine has ended.
pub proof fn lemma_no_removal_once_deferred(s: UninstallerView, replies: Seq<ReplyView>)
    requires
        past_removal(s.phase),
    ensures
        run(s, replies).len() == replies.len(),
        forall|i: int| 0 <= i < replies.len() ==> !run(s, replies)[i].removes_binary(),
    decreases replies.len(),
{
    lemma_run_len(s, replies);
    if replies.len() > 0 {
        lemma_no_removal_once_deferred(advance(s, replies[0]).0, replies.drop_first());
        assert forall|i: int| 0 <= i < replies.len() implies !run(
            s,
            replies,
        )[i].removes_binary() by {
            lemma_run_index(s, replies, i);
        }
    }
}

/// Declining leaves everything as it was. For a binary outside the
/// standard locations the routine first asks; on an answer that is not
/// affirmative it ends in `UserCancelled`, with exit status zero, and in
/// the whole run no action alters the binary, a registered file, the
/// install record or anything else.
pub proof fn lemma_declining_alters_nothing(
    platform: Platform,
    pid: u32,
    path: Seq<char>,
    answer: Seq<char>,
    later: Seq<ReplyView>,
)
    requires
        install_class(path) == InstallClass::UserInstall,
        !affirmative(answer),
    ensures
        ({
            let replies = seq![ReplyView::Succeeded(path), ReplyView::Succeeded(answer)] + later;
            let actions = run(initial(platform, pid), replies);
            &&& actions.len() == replies.len()
            &&& actions[0] == ActionView::AskConfirmation(path)
            &&& forall|i: int|
                1 <= i < actions.len() ==> actions[i] == ActionView::Finish(Ending::UserCancelled)
            &&& forall|i: int| 0 <= i < actions.len() ==> !actions[i].alters_system()
        }),
        exit_status(Ending::UserCancelled) == 0,
{
    let r0 = ReplyView::Succeeded(path);
    let r1 = ReplyView::Succeeded(answer);
    let replies = seq![r0, r1] + later;
    let s0 = initial(platform, pid);
    let s1 = advance(s0, r0).0;
    let s2 = advance(s1, r1).0;
    let actions = run(s0, replies);
    let tail = replies.drop_first();
    assert(tail.drop_first() =~= later);
    lemma_run_len(s0, replies);
    lemma_done_stays_done(s2, Ending::UserCancelled, later);
    assert forall|i: int| 0 <= i < actions.len() implies (i == 0 ==> actions[i]
        == ActionView::AskConfirmation(path)) && (i >= 1 ==> actions[i] == ActionView::Finish(
        Ending::UserCancelled,
    )) by {
        lemma_run_index(s0, replies, i);
        if i > 0 {
            lemma_run_index(s1, tail, i - 1);
        }
    }
}

/// The reply to a removal of the binary is awaited.
pub open spec fn removing(phase: Phase) -> bool {
    phase == Phase::RemovingElevated || phase == Phase::RemovingDirect
}

/// The binary's removal is attempted at most once in a run: after an
/// action that removes the binary no later action does. Nothing is tried
/// again.
pub proof fn lemma_removal_is_attempted_once(
    s: UninstallerView,
    replies: Seq<ReplyView>,
    i: int,
    j: int,
)
    requires
        0 <= i < j < replies.len(),
        run(s, replies)[i].removes_binary(),
    ensures
        !run(s, replies)[j].removes_binary(),
    decreases replies.len(),
{
    let after = advance(s, replies[0]).0;
    let tail = replies.drop_first();
    lemma_run_index(s, replies, i);
    lemma_run_index(s, replies, j);
    if i == 0 {
        assert(removing(after.phase));
        lemma_run_index(after, tail, j - 1);
        if j > 1 {
            lemma_no_removal_once_deferred(advance(after, tail[0]).0, tail.drop_first());
        }
    } else {
        lemma_removal_is_attempted_once(after, tail, i - 1, j - 1);
    }
}

/// How far a phase is from the end.
pub open spec fn rank(phase: Phase) -> nat {
    match phase {
        Phase::Locating => 11,
        Phase::Confirming => 10,
        Phase::QueryingRegistry => 9,
        Phase::ListingFiles => 8,
        Phase::ProbingFile => 7,
        Phase::RemovingFile => 7,
        Phase::ForgettingRecord => 6,
        Phase::RemovingElevated => 5,
        Phase::RemovingDirect => 5,
        Phase::WritingHelper => 4,
        Phase::MarkingHelper => 3,
        Phase::LaunchingHelper => 2,
        Phase::Done(_) => 0,
    }
}

/// The work left on the registered files.
pub open spec fn work(s: UninstallerView) -> nat {
    2 * s.pending.len() + if s.phase == Phase::ProbingFile {
        1nat
    } else {
        0nat
    }
}

/// Every step brings the routine nearer to its end: it moves to a later
/// phase, or it stays with the registered files and has less work left on
/// them. So the routine never returns to a phase it has left, and it ends
/// after finitely many replies.
pub proof fn lemma_every_step_makes_progress(s: UninstallerView, reply: ReplyView)
    requires
        !(s.phase is Done),
    ensures
        rank(advance(s, reply).0.phase) < rank(s.phase) || (rank(advance(s, reply).0.phase)
            == rank(s.phase) && work(advance(s, reply).0) < work(s)),
{
}

} // verus!
