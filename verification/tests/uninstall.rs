use rps::command::Invocation;
use rps::helper::DeferredDeletionScript;
use rps::uninstall::{
    exit_status_of, is_affirmative, restart_advised, Action, Ending, Outcome, Phase, Platform,
    Reply, Uninstaller,
};

fn ok(text: &str) -> Reply {
    Reply::Succeeded(text.to_string())
}

fn drive(platform: Platform, pid: u32, replies: Vec<Reply>) -> (Uninstaller, Vec<Action>) {
    let (start, first) = Uninstaller::begin(platform, pid);
    let (state, drawn) = start.replay(replies);
    let mut actions = vec![first];
    actions.extend(drawn);
    (state, actions)
}

fn finish(outcome: Outcome) -> Action {
    Action::Finish(Ending::Finished(outcome))
}

fn alters_system(action: &Action) -> bool {
    matches!(
        action,
        Action::RemoveFile(_)
            | Action::ForgetRecord(_)
            | Action::RemoveElevated(_)
            | Action::RemoveBinary(_)
            | Action::WriteHelper(_)
            | Action::MarkExecutable(_)
            | Action::LaunchHelper(_)
    )
}

#[test]
fn uninstall_begins_by_resolving_the_location() {
    let (state, actions) = drive(Platform::Unix, 1, vec![]);
    assert_eq!(actions, vec![Action::ResolveLocation]);
    assert_eq!(state.phase(), Phase::Locating);
    assert_eq!(state.ending(), None);
    assert_eq!(state.location().as_str(), "");
}

#[test]
fn affirmative_answers() {
    for a in ["y", "Y", " y", "y\n", "  Y \r\n", "\ty\t", "\u{3000}y"] {
        assert!(is_affirmative(a), "{:?}", a);
    }
}

#[test]
fn other_answers_are_not_affirmative() {
    for a in ["", "\n", "n", "N", "yes", "YES", "yy", "y y", "ja", "1", "ý", "y.", " "] {
        assert!(!is_affirmative(a), "{:?}", a);
    }
}

#[test]
fn affirmative_agrees_with_trim_and_ignore_case() {
    for a in ["y", "Y", "", "yes", " y ", "\u{85}Y\u{2003}", "n", "\u{200B}y", "Ｙ"] {
        assert_eq!(is_affirmative(a), a.trim().eq_ignore_ascii_case("y"), "{:?}", a);
    }
}

#[test]
fn user_local_binary_that_can_be_deleted_directly_is_deleted() {
    let path = "/home/u/.cargo/bin/rps";
    let (state, actions) = drive(Platform::Unix, 500, vec![ok(path), ok("")]);
    assert_eq!(
        actions,
        vec![
            Action::ResolveLocation,
            Action::RemoveBinary(path.to_string()),
            finish(Outcome::Deleted),
        ]
    );
    assert_eq!(state.ending(), Some(Ending::Finished(Outcome::Deleted)));
    assert_eq!(exit_status_of(Ending::Finished(Outcome::Deleted)), 0);
    assert!(!actions.iter().any(|a| matches!(a, Action::WriteHelper(_))));
    assert_eq!(state.location().as_str(), path);
}

#[test]
fn direct_success_never_writes_a_helper_whatever_follows() {
    let (_, actions) = drive(
        Platform::MacOs,
        9,
        vec![ok("/home/u/.cargo/bin/rps"), Reply::Failed, ok(""), Reply::Failed, ok("x")],
    );
    assert_eq!(actions[1], Action::QueryRegistry);
    assert_eq!(actions[2], Action::RemoveBinary("/home/u/.cargo/bin/rps".to_string()));
    assert_eq!(actions[3], finish(Outcome::Deleted));
    assert_eq!(actions[4], finish(Outcome::Deleted));
    assert_eq!(actions[5], finish(Outcome::Deleted));
    assert!(!actions.iter().any(|a| matches!(a, Action::WriteHelper(_))));
}

#[test]
fn busy_binary_is_handed_to_a_helper() {
    let path = "/home/u/.cargo/bin/rps";
    let (state, actions) =
        drive(Platform::Unix, 4242, vec![ok(path), Reply::Failed, ok(""), ok(""), ok("")]);
    let helper = "/tmp/rps_uninstall_4242.sh".to_string();
    assert_eq!(
        actions,
        vec![
            Action::ResolveLocation,
            Action::RemoveBinary(path.to_string()),
            Action::WriteHelper(DeferredDeletionScript::new(4242, path)),
            Action::MarkExecutable(helper.clone()),
            Action::LaunchHelper(helper.clone()),
            finish(Outcome::DeferredDeleted),
        ]
    );
    match &actions[2] {
        Action::WriteHelper(script) => {
            assert_eq!(script.path, helper);
            assert!(script.content.contains("rm -f \"/home/u/.cargo/bin/rps\"\n"));
        }
        other => panic!("{:?}", other),
    }
    let removals = actions
        .iter()
        .filter(|a| matches!(a, Action::RemoveBinary(_) | Action::RemoveElevated(_)))
        .count();
    assert_eq!(removals, 1);
    assert_eq!(state.ending(), Some(Ending::Finished(Outcome::DeferredDeleted)));
    assert_eq!(exit_status_of(Ending::Finished(Outcome::DeferredDeleted)), 0);
}

#[test]
fn helper_is_launched_even_if_marking_fails() {
    let (state, actions) = drive(
        Platform::Unix,
        7,
        vec![ok("/home/u/.cargo/bin/rps"), Reply::Failed, ok(""), Reply::Failed, ok("")],
    );
    assert_eq!(actions[4], Action::LaunchHelper("/tmp/rps_uninstall_7.sh".to_string()));
    assert_eq!(state.ending(), Some(Ending::Finished(Outcome::DeferredDeleted)));
}

#[test]
fn helper_that_cannot_be_written_leaves_it_to_the_user() {
    let (state, actions) = drive(
        Platform::Unix,
        7,
        vec![ok("/home/u/.cargo/bin/rps"), Reply::Failed, Reply::Failed],
    );
    assert_eq!(actions[3], finish(Outcome::ManualActionRequired));
    assert_eq!(actions.len(), 4);
    assert_eq!(state.ending(), Some(Ending::Finished(Outcome::ManualActionRequired)));
    assert_eq!(exit_status_of(Ending::Finished(Outcome::ManualActionRequired)), 1);
}

#[test]
fn helper_that_cannot_be_launched_leaves_it_to_the_user() {
    let (state, actions) = drive(
        Platform::Unix,
        7,
        vec![ok("/home/u/.cargo/bin/rps"), Reply::Failed, ok(""), ok(""), Reply::Failed],
    );
    assert_eq!(actions[5], finish(Outcome::ManualActionRequired));
    assert_eq!(state.ending(), Some(Ending::Finished(Outcome::ManualActionRequired)));
}

#[test]
fn system_binary_is_removed_with_elevation() {
    let path = "/usr/local/bin/rps";
    let (state, actions) = drive(Platform::Unix, 3, vec![ok(path), ok("")]);
    assert_eq!(
        actions,
        vec![
            Action::ResolveLocation,
            Action::RemoveElevated(path.to_string()),
            finish(Outcome::Deleted),
        ]
    );
    assert_eq!(state.ending(), Some(Ending::Finished(Outcome::Deleted)));
}

#[test]
fn failed_elevation_ends_the_routine() {
    let path = "/opt/homebrew/bin/rps";
    let (state, actions) = drive(Platform::Unix, 3, vec![ok(path), Reply::Failed, ok("")]);
    assert_eq!(actions[1], Action::RemoveElevated(path.to_string()));
    assert_eq!(actions[2], finish(Outcome::ElevationFailed));
    assert_eq!(actions[3], finish(Outcome::ElevationFailed));
    assert_eq!(state.ending(), Some(Ending::Finished(Outcome::ElevationFailed)));
    assert_eq!(exit_status_of(Ending::Finished(Outcome::ElevationFailed)), 1);
}

#[test]
fn declining_leaves_everything_untouched() {
    for answer in ["n", "", "\n", "yes", "no thanks"] {
        for platform in [Platform::MacOs, Platform::Unix, Platform::Windows] {
            let path = "/home/u/downloads/rps";
            let (state, actions) = drive(platform, 11, vec![ok(path), ok(answer), ok("")]);
            assert_eq!(
                actions,
                vec![
                    Action::ResolveLocation,
                    Action::AskConfirmation(path.to_string()),
                    Action::Finish(Ending::UserCancelled),
                    Action::Finish(Ending::UserCancelled),
                ]
            );
            assert!(!actions.iter().any(alters_system));
            assert_eq!(state.ending(), Some(Ending::UserCancelled));
        }
    }
    assert_eq!(exit_status_of(Ending::UserCancelled), 0);
}

#[test]
fn confirming_goes_on_to_the_deletion() {
    let path = "/home/u/downloads/rps";
    let (state, actions) = drive(Platform::Unix, 11, vec![ok(path), ok(" Y \n"), ok("")]);
    assert_eq!(
        actions,
        vec![
            Action::ResolveLocation,
            Action::AskConfirmation(path.to_string()),
            Action::RemoveBinary(path.to_string()),
            finish(Outcome::Deleted),
        ]
    );
    assert_eq!(state.phase(), Phase::Done(Ending::Finished(Outcome::Deleted)));
}

#[test]
fn confirmed_binary_under_a_system_directory_needs_elevation() {
    let path = "/usr/bin/rps";
    let (_, actions) = drive(Platform::Unix, 11, vec![ok(path), ok("y")]);
    assert_eq!(actions[1], Action::AskConfirmation(path.to_string()));
    assert_eq!(actions[2], Action::RemoveElevated(path.to_string()));
}

#[test]
fn standard_locations_are_not_put_to_the_user() {
    for path in ["/usr/local/bin/rps", "/opt/homebrew/bin/rps", "/home/u/.cargo/bin/rps"] {
        let (_, actions) = drive(Platform::Unix, 11, vec![ok(path)]);
        assert!(!matches!(actions[1], Action::AskConfirmation(_)), "{}", path);
    }
}

#[test]
fn unknown_location_is_fatal() {
    let (state, actions) = drive(Platform::Unix, 5, vec![Reply::Failed]);
    assert_eq!(
        actions,
        vec![Action::ResolveLocation, Action::Finish(Ending::LocationUnavailable)]
    );
    assert_eq!(state.ending(), Some(Ending::LocationUnavailable));
    assert_eq!(exit_status_of(Ending::LocationUnavailable), 1);
}

#[test]
fn unreadable_answer_is_fatal() {
    let (state, actions) = drive(Platform::Unix, 5, vec![ok("/home/u/rps"), Reply::Failed]);
    assert_eq!(actions[2], Action::Finish(Ending::ConfirmationUnreadable));
    assert!(!actions.iter().any(alters_system));
    assert_eq!(state.ending(), Some(Ending::ConfirmationUnreadable));
    assert_eq!(exit_status_of(Ending::ConfirmationUnreadable), 1);
}

#[test]
fn windows_removes_directly_and_never_defers() {
    let path = "/usr/local/bin/rps";
    let (_, actions) = drive(Platform::Windows, 5, vec![ok(path), ok("")]);
    assert_eq!(actions[1], Action::RemoveBinary(path.to_string()));
    assert_eq!(actions[2], finish(Outcome::Deleted));
    let (_, actions) = drive(Platform::Windows, 5, vec![ok(path), Reply::Failed]);
    assert_eq!(actions[2], finish(Outcome::ManualActionRequired));
}

#[test]
fn record_is_cleaned_before_the_binary_is_deleted() {
    let id = "com.package-runner-cli.rps".to_string();
    let path = "/usr/local/bin/rps";
    let (state, actions) = drive(
        Platform::MacOs,
        5,
        vec![
            ok(path),
            ok("com.apple.x\ncom.package-runner-cli.rps\n"),
            ok("usr/local/bin/rps\nusr/local/share/rps.1\n"),
            ok(""),
            Reply::Failed,
            Reply::Failed,
            ok(""),
            ok(""),
        ],
    );
    assert_eq!(
        actions,
        vec![
            Action::ResolveLocation,
            Action::QueryRegistry,
            Action::ListFiles(id.clone()),
            Action::ProbeFile("/usr/local/bin/rps".to_string()),
            Action::RemoveFile("/usr/local/bin/rps".to_string()),
            Action::ProbeFile("/usr/local/share/rps.1".to_string()),
            Action::ForgetRecord(id),
            Action::RemoveElevated(path.to_string()),
            finish(Outcome::Deleted),
        ]
    );
    assert_eq!(state.ending(), Some(Ending::Finished(Outcome::Deleted)));
}

#[test]
fn missing_record_is_passed_over() {
    let path = "/usr/local/bin/rps";
    let (_, actions) = drive(Platform::MacOs, 5, vec![ok(path), ok("com.apple.x\n")]);
    assert_eq!(actions[1], Action::QueryRegistry);
    assert_eq!(actions[2], Action::RemoveElevated(path.to_string()));
    let (_, actions) = drive(Platform::MacOs, 5, vec![ok(path), Reply::Failed]);
    assert_eq!(actions[2], Action::RemoveElevated(path.to_string()));
}

#[test]
fn record_without_a_file_list_is_forgotten_all_the_same() {
    let (_, actions) = drive(
        Platform::MacOs,
        5,
        vec![ok("/usr/local/bin/rps"), ok("com.package-runner-cli.rps"), Reply::Failed, ok("")],
    );
    assert_eq!(actions[3], Action::ForgetRecord("com.package-runner-cli.rps".to_string()));
    assert_eq!(actions[4], Action::RemoveElevated("/usr/local/bin/rps".to_string()));
}

#[test]
fn record_with_an_empty_file_list_is_forgotten() {
    let (_, actions) = drive(
        Platform::MacOs,
        5,
        vec![ok("/usr/local/bin/rps"), ok("com.package-runner-cli.rps"), ok("")],
    );
    assert_eq!(actions[3], Action::ForgetRecord("com.package-runner-cli.rps".to_string()));
}

#[test]
fn hosts_without_a_registry_are_not_asked_for_records() {
    for platform in [Platform::Unix, Platform::Windows] {
        let (_, actions) = drive(platform, 5, vec![ok("/home/u/.cargo/bin/rps"), ok("")]);
        assert!(!actions.iter().any(|a| matches!(
            a,
            Action::QueryRegistry | Action::ListFiles(_) | Action::ForgetRecord(_)
        )));
    }
}

#[test]
fn location_is_resolved_once() {
    let (_, actions) = drive(
        Platform::MacOs,
        5,
        vec![
            ok("/home/u/rps"),
            ok("y"),
            ok("com.package-runner-cli.rps"),
            ok("a\nb\n"),
            ok(""),
            ok(""),
            ok(""),
            ok(""),
            ok(""),
            Reply::Failed,
            ok(""),
            ok(""),
            ok(""),
            ok(""),
        ],
    );
    let resolutions = actions.iter().filter(|a| matches!(a, Action::ResolveLocation)).count();
    assert_eq!(resolutions, 1);
    assert_eq!(actions.last(), Some(&finish(Outcome::DeferredDeleted)));
}

#[test]
fn exit_status_is_zero_only_where_nothing_is_left_to_do() {
    assert_eq!(exit_status_of(Ending::UserCancelled), 0);
    assert_eq!(exit_status_of(Ending::Finished(Outcome::Deleted)), 0);
    assert_eq!(exit_status_of(Ending::Finished(Outcome::DeferredDeleted)), 0);
    assert_eq!(exit_status_of(Ending::Finished(Outcome::ElevationFailed)), 1);
    assert_eq!(exit_status_of(Ending::Finished(Outcome::ManualActionRequired)), 1);
    assert_eq!(exit_status_of(Ending::LocationUnavailable), 1);
    assert_eq!(exit_status_of(Ending::ConfirmationUnreadable), 1);
}

#[test]
fn restart_is_advised_after_an_attempt_on_unix() {
    for platform in [Platform::Unix, Platform::MacOs] {
        assert!(restart_advised(platform, Ending::Finished(Outcome::Deleted)));
        assert!(restart_advised(platform, Ending::Finished(Outcome::DeferredDeleted)));
        assert!(restart_advised(platform, Ending::Finished(Outcome::ManualActionRequired)));
        assert!(!restart_advised(platform, Ending::Finished(Outcome::ElevationFailed)));
        assert!(!restart_advised(platform, Ending::UserCancelled));
        assert!(!restart_advised(platform, Ending::LocationUnavailable));
        assert!(!restart_advised(platform, Ending::ConfirmationUnreadable));
    }
    assert!(!restart_advised(Platform::Windows, Ending::Finished(Outcome::Deleted)));
}

#[test]
fn state_remembers_its_host() {
    let (state, _) = drive(Platform::MacOs, 1, vec![ok("/home/u/rps"), ok("n")]);
    assert_eq!(state.platform(), Platform::MacOs);
}

fn command(program: &str, arguments: &[&str]) -> Option<Invocation> {
    Some(Invocation {
        program: program.to_string(),
        arguments: arguments.iter().map(|a| a.to_string()).collect(),
    })
}

#[test]
fn registry_actions_are_pkgutil_commands() {
    let id = "com.package-runner-cli.rps".to_string();
    assert_eq!(Action::QueryRegistry.command(), command("pkgutil", &["--pkgs"]));
    assert_eq!(
        Action::ListFiles(id.clone()).command(),
        command("pkgutil", &["--files", "com.package-runner-cli.rps"])
    );
    assert_eq!(
        Action::ForgetRecord(id).command(),
        command("pkgutil", &["--forget", "com.package-runner-cli.rps"])
    );
}

#[test]
fn elevated_removal_is_a_forced_sudo_rm_of_the_exact_path() {
    assert_eq!(
        Action::RemoveElevated("/usr/local/bin/my rps".to_string()).command(),
        command("sudo", &["rm", "-f", "/usr/local/bin/my rps"])
    );
}

#[test]
fn helper_is_run_by_the_shell() {
    assert_eq!(
        Action::LaunchHelper("/tmp/rps_uninstall_5.sh".to_string()).command(),
        command("sh", &["/tmp/rps_uninstall_5.sh"])
    );
}

#[test]
fn other_actions_are_no_commands() {
    let path = "/home/u/rps".to_string();
    for action in [
        Action::ResolveLocation,
        Action::AskConfirmation(path.clone()),
        Action::ProbeFile(path.clone()),
        Action::RemoveFile(path.clone()),
        Action::RemoveBinary(path.clone()),
        Action::WriteHelper(DeferredDeletionScript::new(1, &path)),
        Action::MarkExecutable(path.clone()),
        Action::Finish(Ending::UserCancelled),
    ] {
        assert_eq!(action.command(), None, "{:?}", action);
    }
}

#[test]
fn replay_takes_the_same_steps_as_step() {
    let replies = || vec![ok("/home/u/rps"), ok("y"), Reply::Failed, ok(""), ok(""), ok("")];
    let (mut state, _) = Uninstaller::begin(Platform::Unix, 8);
    let mut stepped = Vec::new();
    for reply in replies() {
        let (next, action) = state.step(reply);
        state = next;
        stepped.push(action);
    }
    let (start, _) = Uninstaller::begin(Platform::Unix, 8);
    let (end, replayed) = start.replay(replies());
    assert_eq!(replayed, stepped);
    assert_eq!(end.phase(), state.phase());
    assert_eq!(end.location(), state.location());
}

#[test]
fn replay_of_nothing_changes_nothing() {
    let (start, _) = Uninstaller::begin(Platform::Unix, 8);
    let (end, actions) = start.replay(vec![]);
    assert!(actions.is_empty());
    assert_eq!(end.phase(), Phase::Locating);
}

#[test]
fn path_that_only_mentions_cargo_bin_is_put_to_the_user() {
    let path = "/tmp/x.cargo/binx/rps";
    let (_, actions) = drive(Platform::Unix, 5, vec![ok(path)]);
    assert_eq!(actions[1], Action::AskConfirmation(path.to_string()));
    let (state, actions) = drive(Platform::Unix, 5, vec![ok(path), ok("n")]);
    assert_eq!(actions[2], Action::Finish(Ending::UserCancelled));
    assert!(!actions.iter().any(alters_system));
    assert_eq!(state.ending(), Some(Ending::UserCancelled));
}
