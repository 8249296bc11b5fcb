//! The interactive script runner, between its inputs and its outputs.
//!
//! The runner reads a manifest, shows the scripts it declares, lets the user
//! choose one and starts a package manager on it. Reading, showing and
//! starting are the caller's business; what to show, what to start and how
//! to end are decided here. Each decision takes what the previous step
//! brought and returns either what the next step needs or the failure that
//! ends the run. A `Selection` exists only for a manifest that declares at
//! least one script, so nothing can be shown for any other.

use vstd::prelude::*;
use vstd::relations::sorted_by;
use vstd::string::*;
use crate::command::{Invocation, InvocationView};
use crate::manager::{run_invocation, run_script, run_script_with, ChildReport, PackageManager};
use crate::scripts::{
    by_name, chosen, entries, label, labels, lemma_listing_is_sorted_bijection,
    lemma_offered_choice_resolves, lemma_sorted_names_ascend, lemma_unique_names_list_strictly,
    listing, names_ascend, names_ascend_strictly, names_unique, resolve_selection,
    selection_labels, sort_scripts, Script, ScriptView,
};
use crate::text::texts;

verus! {

/// The name of the manifest, which is looked for in the working directory.
pub open spec fn manifest_name() -> Seq<char> {
    "package.json"@
}

/// The name of the manifest.
pub fn manifest_file_name() -> (name: &'static str)
    ensures
        name@ == manifest_name(),
{
    "package.json"
}

/// What the program was started to do.
#[derive(Clone, Copy, Debug, PartialEq, Eq, Structural)]
pub enum Mode {
    /// Choose a script and run it.
    Run,
    /// Remove the program itself.
    Uninstall,
    /// Print the usage text.
    Help,
}

/// The mode that a command line asks for. Only the first argument after
/// the program's name counts: `--uninstall` or `-u`, `--help` or `-h`.
/// Anything else, and no argument at all, runs a script.
pub open spec fn mode_of(args: Seq<Seq<char>>) -> Mode {
    if args.len() > 1 && (args[1] == "--uninstall"@ || args[1] == "-u"@) {
        Mode::Uninstall
    } else if args.len() > 1 && (args[1] == "--help"@ || args[1] == "-h"@) {
        Mode::Help
    } else {
        Mode::Run
    }
}

/// Whether `text` is `word`.
fn is_word(text: &String, word: &str) -> (same: bool)
    ensures
        same == (text@ == word@),
{
    *text == String::from_str(word)
}

/// The mode that the command line `args` asks for; `args[0]` is the
/// program's name.
pub fn parse_mode(args: &Vec<String>) -> (mode: Mode)
    ensures
        mode == mode_of(texts(args@)),
{
    if args.len() > 1 && (is_word(&args[1], "--uninstall") || is_word(&args[1], "-u")) {
        Mode::Uninstall
    } else if args.len() > 1 && (is_word(&args[1], "--help") || is_word(&args[1], "-h")) {
        Mode::Help
    } else {
        Mode::Run
    }
}

/// Why a run ended before a script was started, or without starting one.
#[derive(Clone, Copy, Debug, PartialEq, Eq, Structural)]
pub enum Failure {
    /// There is no manifest in the working directory.
    ManifestMissing,
    /// The manifest could not be read.
    ManifestUnreadable,
    /// The manifest is not what a manifest has to be.
    ManifestMalformed,
    /// The manifest has no script mapping.
    ScriptsMissing,
    /// The manifest's script mapping is empty.
    ScriptsEmpty,
    /// The user left the selection without choosing, or the choice is not
    /// one of the labels shown.
    SelectionFailed,
    /// The package manager could not be started.
    ExecutionFailed,
}

/// The kinds of failure a run can end in.
#[derive(Clone, Copy, Debug, PartialEq, Eq, Structural)]
pub enum ErrorKind {
    /// The manifest is absent, unreadable or unparseable, or declares no
    /// script.
    ConfigurationMissing,
    /// The interactive selection was aborted.
    SelectionFailed,
    /// The child process could not be started, or did not succeed.
    ExecutionFailed,
}

impl Failure {
    /// The kind of this failure.
    pub open spec fn kind(self) -> ErrorKind {
        match self {
            Failure::SelectionFailed => ErrorKind::SelectionFailed,
            Failure::ExecutionFailed => ErrorKind::ExecutionFailed,
            _ => ErrorKind::ConfigurationMissing,
        }
    }

    /// The kind of this failure.
    pub fn error_kind(self) -> (kind: ErrorKind)
        ensures
            kind == self.kind(),
    {
        match self {
            Failure::SelectionFailed => ErrorKind::SelectionFailed,
            Failure::ExecutionFailed => ErrorKind::ExecutionFailed,
            _ => ErrorKind::ConfigurationMissing,
        }
    }
}

/// A manifest, as far as the runner reads it: the scripts of its script
/// mapping, in any order, where it has such a mapping. A mapping holds no
/// name twice; `lemma_mapping_is_listed_by_name` says what that gives the
/// selection.
#[derive(Debug, PartialEq, Eq)]
pub struct Manifest {
    pub scripts: Option<Vec<Script>>,
}

/// A manifest, as plain text.
pub struct ManifestView {
    pub scripts: Option<Seq<ScriptView>>,
}

impl View for Manifest {
    type V = ManifestView;

    open spec fn view(&self) -> ManifestView {
        ManifestView {
            scripts: match self.scripts {
                Some(list) => Some(entries(list@)),
                None => None,
            },
        }
    }
}

/// What reading the manifest brought.
#[derive(Debug, PartialEq, Eq)]
pub enum ManifestReport {
    /// No manifest in the working directory.
    Missing,
    /// A manifest that could not be read.
    Unreadable,
    /// A manifest that could not be parsed.
    Malformed,
    /// A manifest.
    Loaded(Manifest),
}

/// What reading the manifest brought, as plain text.
pub enum ManifestReportView {
    Missing,
    Unreadable,
    Malformed,
    Loaded(ManifestView),
}

impl View for ManifestReport {
    type V = ManifestReportView;

    open spec fn view(&self) -> ManifestReportView {
        match self {
            ManifestReport::Missing => ManifestReportView::Missing,
            ManifestReport::Unreadable => ManifestReportView::Unreadable,
            ManifestReport::Malformed => ManifestReportView::Malformed,
            ManifestReport::Loaded(manifest) => ManifestReportView::Loaded(manifest@),
        }
    }
}

/// The report is a manifest that declares at least one script.
pub open spec fn declares_scripts(report: ManifestReportView) -> bool {
    &&& report matches ManifestReportView::Loaded(manifest)
    &&& manifest.scripts matches Some(list)
    &&& list.len() > 0
}

/// The scripts to choose from, in the order shown, or the failure that
/// ends the run: every report but a manifest with at least one script is a
/// failure.
pub open spec fn selection_for(report: ManifestReportView) -> Result<Seq<ScriptView>, Failure> {
    match report {
        ManifestReportView::Missing => Err(Failure::ManifestMissing),
        ManifestReportView::Unreadable => Err(Failure::ManifestUnreadable),
        ManifestReportView::Malformed => Err(Failure::ManifestMalformed),
        ManifestReportView::Loaded(manifest) => match manifest.scripts {
            None => Err(Failure::ScriptsMissing),
            Some(list) => if list.len() == 0 {
                Err(Failure::ScriptsEmpty)
            } else {
                Ok(listing(list))
            },
        },
    }
}

/// The command line to start for a choice, or the failure that ends the
/// run. No choice is a failure, and so is a choice that is no label of the
/// list.
pub open spec fn launch_for(
    list: Seq<ScriptView>,
    choice: Option<Seq<char>>,
    manager: PackageManager,
) -> Result<InvocationView, Failure> {
    match choice {
        None => Err(Failure::SelectionFailed),
        Some(picked) => match chosen(list, picked) {
            None => Err(Failure::SelectionFailed),
            Some(name) => Ok(run_invocation(manager, name)),
        },
    }
}

/// A choice, as plain text.
pub open spec fn choice_view(choice: Option<String>) -> Option<Seq<char>> {
    match choice {
        Some(picked) => Some(picked@),
        None => None,
    }
}

/// A prepared selection, as plain text.
pub open spec fn prepared_view(prepared: Result<Selection, Failure>) -> Result<
    Seq<ScriptView>,
    Failure,
> {
    match prepared {
        Ok(selection) => Ok(selection@),
        Err(failure) => Err(failure),
    }
}

/// A plan, as plain text.
pub open spec fn plan_view(plan: Result<Invocation, Failure>) -> Result<InvocationView, Failure> {
    match plan {
        Ok(invocation) => Ok(invocation@),
        Err(failure) => Err(failure),
    }
}

/// How a run ended.
#[derive(Clone, Copy, Debug, PartialEq, Eq, Structural)]
pub enum Conclusion {
    /// The script ran and succeeded.
    Succeeded,
    /// The script ran and did not succeed; this is the exit code to pass
    /// on.
    ChildFailed(i32),
    /// No script ran.
    Failed(Failure),
}

/// The run's end, from the child's: a child that succeeded ends the run
/// with success. One that did not ends it with the child's own exit code, or with
/// one where the child left none. A child that could not be started is a
/// failure.
pub open spec fn conclusion_of(child: ChildReport) -> Conclusion {
    match child {
        ChildReport::NotStarted => Conclusion::Failed(Failure::ExecutionFailed),
        ChildReport::Exited { success, code } => if success {
            Conclusion::Succeeded
        } else {
            match code {
                Some(c) => Conclusion::ChildFailed(c),
                None => Conclusion::ChildFailed(1),
            }
        },
    }
}

/// The exit status of the program for a conclusion: zero after success,
/// the child's exit code after a child that failed, one for every failure
/// of the run itself.
pub open spec fn exit_code(conclusion: Conclusion) -> i32 {
    match conclusion {
        Conclusion::Succeeded => 0,
        Conclusion::ChildFailed(code) => code,
        Conclusion::Failed(_) => 1,
    }
}

/// The kind of error a conclusion stands for, if any: a child that failed
/// counts as a failed execution.
pub open spec fn error_kind(conclusion: Conclusion) -> Option<ErrorKind> {
    match conclusion {
        Conclusion::Succeeded => None,
        Conclusion::ChildFailed(_) => Some(ErrorKind::ExecutionFailed),
        Conclusion::Failed(failure) => Some(failure.kind()),
    }
}

/// There is a selection exactly for a manifest that declares a script. A
/// missing, unreadable or malformed manifest, one without a script mapping
/// and one whose mapping is empty all end the run with a failure of the
/// kind `ConfigurationMissing` and a non-zero exit status.
pub proof fn lemma_no_scripts_no_selection(report: ManifestReportView)
    ensures
        selection_for(report) is Ok <==> declares_scripts(report),
        !declares_scripts(report) ==> selection_for(report)->Err_0.kind()
            == ErrorKind::ConfigurationMissing,
        !declares_scripts(report) ==> exit_code(Conclusion::Failed(selection_for(report)->Err_0))
            != 0,
{
}

/// For a manifest with at least one script there is a selection. It is
/// ordered by name, and it holds each script exactly once, under one
/// label each.
pub proof fn lemma_selection_lists_every_script(list: Seq<ScriptView>)
    requires
        list.len() > 0,
    ensures
        selection_for(ManifestReportView::Loaded(ManifestView { scripts: Some(list) })) == Ok::<
            Seq<ScriptView>,
            Failure,
        >(listing(list)),
        names_ascend(listing(list)),
        listing(list).to_multiset() == list.to_multiset(),
        labels(listing(list)).len() == list.len(),
{
    lemma_listing_is_sorted_bijection(list);
}

/// The selection for a script mapping, which holds no name twice, shows
/// no name twice, and its names ascend strictly.
pub proof fn lemma_mapping_is_listed_by_name(list: Seq<ScriptView>)
    requires
        list.len() > 0,
        names_unique(list),
    ensures
        selection_for(ManifestReportView::Loaded(ManifestView { scripts: Some(list) })) == Ok::<
            Seq<ScriptView>,
            Failure,
        >(listing(list)),
        names_unique(listing(list)),
        names_ascend_strictly(listing(list)),
{
    lemma_unique_names_list_strictly(list);
}

/// A choice among the labels shown always leads to a command line: that
/// of the manager with the two arguments `run` and a script's name.
pub proof fn lemma_offered_choice_launches(
    list: Seq<ScriptView>,
    i: int,
    manager: PackageManager,
)
    requires
        0 <= i < list.len(),
    ensures
        launch_for(list, Some(labels(list)[i]), manager) is Ok,
        launch_for(list, Some(labels(list)[i]), manager)->Ok_0.program == manager.program(),
        launch_for(list, Some(labels(list)[i]), manager)->Ok_0.arguments.len() == 2,
        launch_for(list, Some(labels(list)[i]), manager)->Ok_0.arguments[0] == "run"@,
        (forall|j: int| 0 <= j < i ==> label(#[trigger] list[j]) != label(list[i])) ==> launch_for(
            list,
            Some(labels(list)[i]),
            manager,
        ) == Ok::<InvocationView, Failure>(run_invocation(manager, list[i].name)),
{
    lemma_offered_choice_resolves(list, i);
}

/// The program's exit status after a child equals the child's: zero after
/// success, the child's code after anything else.
pub proof fn lemma_exit_code_is_the_childs(success: bool, code: i32)
    requires
        success <==> code == 0,
    ensures
        exit_code(conclusion_of(ChildReport::Exited { success, code: Some(code) })) == code,
{
}

/// The scripts of a manifest, ready to be chosen from: at least one, in
/// the order of the selection list.
#[derive(Debug)]
pub struct Selection {
    scripts: Vec<Script>,
}

impl View for Selection {
    type V = Seq<ScriptView>;

    closed spec fn view(&self) -> Seq<ScriptView> {
        entries(self.scripts@)
    }
}

impl Selection {
    /// What holds of every selection: it is not empty, and it is in order.
    #[verifier::type_invariant]
    closed spec fn well_formed(&self) -> bool {
        self@.len() > 0 && sorted_by(self@, by_name())
    }

    /// The number of scripts to choose from; never zero.
    pub fn len(&self) -> (n: usize)
        ensures
            n == self@.len(),
            n > 0,
    {
        proof {
            use_type_invariant(self);
        }
        self.scripts.len()
    }

    /// The labels to show, in order: one per script, by ascending name.
    pub fn labels(&self) -> (list: Vec<String>)
        ensures
            texts(list@) == labels(self@),
            list.len() == self@.len() > 0,
            names_ascend(self@),
    {
        proof {
            use_type_invariant(self);
            lemma_sorted_names_ascend(self@);
        }
        let list = selection_labels(&self.scripts);
        assert(texts(list@).len() == list.len());
        list
    }

    /// The command line to start for `choice` with `manager`, or the
    /// failure that ends the run.
    pub fn launch_with(&self, choice: Option<String>, manager: PackageManager) -> (plan: Result<
        Invocation,
        Failure,
    >)
        ensures
            plan_view(plan) == launch_for(self@, choice_view(choice), manager),
    {
        match choice {
            None => Err(Failure::SelectionFailed),
            Some(picked) => match resolve_selection(&self.scripts, picked.as_str()) {
                None => Err(Failure::SelectionFailed),
                Some(name) => Ok(run_script_with(manager, name.as_str())),
            },
        }
    }

    /// The command line to start for `choice` with the manager found on
    /// this machine, or the failure that ends the run. The machine is
    /// searched only for a choice that names a script.
    pub fn launch(&self, choice: Option<String>) -> (plan: Result<Invocation, Failure>)
        ensures
            plan_view(plan) == launch_for(self@, choice_view(choice), PackageManager::Yarn)
                || plan_view(plan) == launch_for(self@, choice_view(choice), PackageManager::Npm),
    {
        match choice {
            None => Err(Failure::SelectionFailed),
            Some(picked) => match resolve_selection(&self.scripts, picked.as_str()) {
                None => Err(Failure::SelectionFailed),
                Some(name) => Ok(run_script(name.as_str())),
            },
        }
    }
}

/// The selection for what reading the manifest brought, or the failure
/// that ends the run.
pub fn prepare_selection(report: ManifestReport) -> (prepared: Result<Selection, Failure>)
    ensures
        prepared_view(prepared) == selection_for(report@),
{
    match report {
        ManifestReport::Missing => Err(Failure::ManifestMissing),
        ManifestReport::Unreadable => Err(Failure::ManifestUnreadable),
        ManifestReport::Malformed => Err(Failure::ManifestMalformed),
        ManifestReport::Loaded(manifest) => match manifest.scripts {
            None => Err(Failure::ScriptsMissing),
            Some(list) => if list.len() == 0 {
                Err(Failure::ScriptsEmpty)
            } else {
                Ok(Selection { scripts: sort_scripts(list) })
            },
        },
    }
}

/// How the run ends after the child.
pub fn conclude(child: ChildReport) -> (conclusion: Conclusion)
    ensures
        conclusion == conclusion_of(child),
{
    match child {
        ChildReport::NotStarted => Conclusion::Failed(Failure::ExecutionFailed),
        ChildReport::Exited { success, code } => if success {
            Conclusion::Succeeded
        } else {
            match code {
                Some(c) => Conclusion::ChildFailed(c),
                None => Conclusion::ChildFailed(1),
            }
        },
    }
}

/// The exit status of the program for a conclusion.
pub fn exit_code_of(conclusion: Conclusion) -> (status: i32)
    ensures
        status == exit_code(conclusion),
{
    match conclusion {
        Conclusion::Succeeded => 0,
        Conclusion::ChildFailed(code) => code,
        Conclusion::Failed(_) => 1,
    }
}

/// The kind of error a conclusion stands for, if any.
pub fn error_kind_of(conclusion: Conclusion) -> (kind: Option<ErrorKind>)
    ensures
        kind == error_kind(conclusion),
{
    match conclusion {
        Conclusion::Succeeded => None,
        Conclusion::ChildFailed(_) => Some(ErrorKind::ExecutionFailed),
        Conclusion::Failed(failure) => Some(failure.error_kind()),
    }
}

} // verus!
