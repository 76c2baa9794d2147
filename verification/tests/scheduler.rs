use git_test::command::Operation;
use git_test::error::ErrorKind;
use git_test::git::{GitRepository, GitRepositoryWorktreeExt, GitSha, WorktreeConfig};
use git_test::scheduler::{Action, Event, Job, JobState, Plan, Policy};
use git_test::store::{Outcome, ResultStore, Verdict};

fn repo() -> GitRepository {
    GitRepository::new("/work/repo".to_string())
}

fn linked() -> WorktreeConfig {
    repo().to_linked_worktree_config("/tmp/trees")
}

fn job(commit: &str, tree: &str, test: &str, command: &str) -> Job {
    Job::new(
        &linked(),
        GitSha::new(commit.to_string()),
        GitSha::new(tree.to_string()),
        repo().test_command(test.to_string(), command.to_string()),
    )
}

fn exited(success: bool, timestamp: u64) -> Event {
    Event::Exited {
        success,
        stdout: "some output".to_string(),
        stderr: "some errors".to_string(),
        timestamp,
    }
}

/// Takes a job through its whole life, as a caller whose steps all
/// succeed; counts how often the test was run.
fn drive(job: Job, policy: &Policy, store: &mut ResultStore, success: bool, runs: &mut u32) -> Job {
    let (mut job, mut action) = job.step(policy, store, Event::Start);
    loop {
        let event = match action {
            Action::Nothing | Action::Cleanup(_) => return job,
            Action::Provision(_) => Event::Provisioned,
            Action::Execute(_) => {
                *runs += 1;
                exited(success, 7)
            }
            Action::Record { .. } => Event::Recorded,
        };
        let (next, then) = job.step(policy, store, event);
        job = next;
        action = then;
    }
}

fn words(items: &[&str]) -> Vec<String> {
    items.iter().map(|s| s.to_string()).collect()
}

#[test]
fn a_new_job_is_pending_in_its_own_working_copy() {
    let job = job("c1", "t1", "unit", "make check");
    assert_eq!(job.state, JobState::Pending);
    assert_eq!(job.worktree.get_path(), "/tmp/trees/c1/unit");
    assert!(!job.is_terminal());
    assert!(!job.has_failed());
    assert_eq!(job.verdict(), None);
}

#[test]
fn plans_follow_the_policy() {
    let pass = Verdict {
        test_name: "unit".to_string(),
        tree: GitSha::new("t".to_string()),
        outcome: Outcome::Pass,
        stdout: String::new(),
        stderr: String::new(),
        timestamp: 1,
    };
    let fail = Verdict { outcome: Outcome::Fail, ..pass.clone() };
    let default = Policy::new();
    assert_eq!(default.plan(None), Plan::Execute);
    assert_eq!(default.plan(Some(&pass)), Plan::Reuse(pass.clone()));
    assert_eq!(default.plan(Some(&fail)), Plan::Reuse(fail.clone()));

    let force = Policy { force: true, ..default };
    assert_eq!(force.plan(None), Plan::Execute);
    assert_eq!(force.plan(Some(&pass)), Plan::Execute);

    let forget = Policy { forget: true, ..default };
    assert_eq!(forget.plan(None), Plan::Execute);
    assert_eq!(forget.plan(Some(&pass)), Plan::Execute);
    assert_eq!(forget.plan(Some(&fail)), Plan::Execute);
    let both = Policy { force: true, forget: true, ..default };
    assert_eq!(both.plan(Some(&pass)), Plan::Execute);

    let retest = Policy { retest: true, ..default };
    assert_eq!(retest.plan(None), Plan::Execute);
    assert_eq!(retest.plan(Some(&pass)), Plan::Reuse(pass.clone()));
    assert_eq!(retest.plan(Some(&fail)), Plan::Execute);
    let retest_forget = Policy { retest: true, forget: true, ..default };
    assert_eq!(retest_forget.plan(Some(&fail)), Plan::Execute);
    assert_eq!(retest_forget.plan(Some(&pass)), Plan::Execute);

    let dry = Policy { dry_run: true, ..default };
    assert_eq!(dry.plan(None), Plan::Unknown);
    assert_eq!(dry.plan(Some(&fail)), Plan::Reuse(fail.clone()));
    let dry_force = Policy { dry_run: true, force: true, ..default };
    assert_eq!(dry_force.plan(Some(&pass)), Plan::Unknown);
    let dry_forget = Policy { dry_run: true, forget: true, ..default };
    assert_eq!(dry_forget.plan(Some(&pass)), Plan::Unknown);
    let dry_retest = Policy { dry_run: true, retest: true, ..default };
    assert_eq!(dry_retest.plan(Some(&fail)), Plan::Unknown);
    assert_eq!(dry_retest.plan(Some(&pass)), Plan::Reuse(pass.clone()));
}

#[test]
fn a_miss_goes_through_every_state() {
    let policy = Policy::new();
    let mut store = ResultStore::new();
    let job = job("c1", "t1", "unit", "make check");

    let (job, action) = job.step(&policy, &mut store, Event::Start);
    assert_eq!(job.state, JobState::Provisioning);
    match action {
        Action::Provision(steps) => {
            assert_eq!(steps.len(), 2);
            assert_eq!(
                steps[0],
                Operation::CreateDirAll { path: "/tmp/trees/c1/unit".to_string() }
            );
        }
        other => panic!("unexpected action {:?}", other),
    }

    let (job, action) = job.step(&policy, &mut store, Event::Provisioned);
    assert_eq!(job.state, JobState::Running);
    match action {
        Action::Execute(invocation) => {
            assert_eq!(invocation.program, "sh");
            assert_eq!(invocation.args, words(&["-c", "make check"]));
            assert_eq!(invocation.dir, Some("/tmp/trees/c1/unit".to_string()));
        }
        other => panic!("unexpected action {:?}", other),
    }

    let (job, action) = job.step(&policy, &mut store, exited(true, 42));
    let expected = Verdict {
        test_name: "unit".to_string(),
        tree: GitSha::new("t1".to_string()),
        outcome: Outcome::Pass,
        stdout: "some output".to_string(),
        stderr: "some errors".to_string(),
        timestamp: 42,
    };
    assert_eq!(job.state, JobState::Recording(expected.clone()));
    assert_eq!(store.len(), 0);
    match action {
        Action::Record { cleanup, note } => {
            assert_eq!(cleanup.len(), 1);
            assert_eq!(
                note.args,
                words(&[
                    "-C",
                    "/work/repo",
                    "notes",
                    "--ref",
                    "refs/notes/tests/unit",
                    "add",
                    "-f",
                    "-m",
                    "✓",
                    "t1"
                ])
            );
        }
        other => panic!("unexpected action {:?}", other),
    }

    let (job, action) = job.step(&policy, &mut store, Event::Recorded);
    assert_eq!(action, Action::Nothing);
    assert_eq!(job.state, JobState::Done(expected.clone()));
    assert!(job.is_terminal());
    assert!(!job.has_failed());
    assert_eq!(job.verdict(), Some(&expected));
    assert_eq!(store.get("unit", "t1"), Some(&expected));
}

#[test]
fn a_failing_test_is_recorded_as_a_failure() {
    let policy = Policy::new();
    let mut store = ResultStore::new();
    let mut runs = 0;
    let job = drive(job("c1", "t1", "unit", "false"), &policy, &mut store, false, &mut runs);
    assert_eq!(runs, 1);
    assert!(job.has_failed());
    assert_eq!(job.verdict().unwrap().outcome, Outcome::Fail);
    assert_eq!(store.get("unit", "t1").unwrap().outcome, Outcome::Fail);
}

#[test]
fn the_same_test_on_an_unchanged_commit_is_not_run_twice() {
    let policy = Policy::new();
    let mut store = ResultStore::new();
    let mut runs = 0;
    let first = drive(job("c1", "t1", "unit", "true"), &policy, &mut store, true, &mut runs);
    assert_eq!(runs, 1);
    let second = drive(job("c1", "t1", "unit", "true"), &policy, &mut store, true, &mut runs);
    assert_eq!(runs, 1);
    assert_eq!(second.verdict(), first.verdict());
    assert_eq!(second.state, JobState::Skipped(first.verdict().cloned()));
    assert_eq!(store.len(), 1);
}

#[test]
fn another_commit_with_the_same_tree_is_a_hit() {
    let policy = Policy::new();
    let mut store = ResultStore::new();
    let mut runs = 0;
    let first = drive(job("commit-a", "tree-x", "unit", "true"), &policy, &mut store, true, &mut runs);
    let second =
        drive(job("commit-b", "tree-x", "unit", "true"), &policy, &mut store, false, &mut runs);
    assert_eq!(runs, 1);
    assert_eq!(second.state, JobState::Skipped(first.verdict().cloned()));
    let third =
        drive(job("commit-b", "tree-y", "unit", "true"), &policy, &mut store, true, &mut runs);
    assert_eq!(runs, 2);
    assert!(matches!(third.state, JobState::Done(_)));
}

#[test]
fn force_runs_again_and_replaces_the_verdict() {
    let mut store = ResultStore::new();
    let mut runs = 0;
    drive(job("c1", "t1", "unit", "true"), &Policy::new(), &mut store, true, &mut runs);
    assert_eq!(store.get("unit", "t1").unwrap().outcome, Outcome::Pass);
    let force = Policy { force: true, ..Policy::new() };
    let again = drive(job("c1", "t1", "unit", "true"), &force, &mut store, false, &mut runs);
    assert_eq!(runs, 2);
    assert!(matches!(again.state, JobState::Done(_)));
    assert_eq!(store.get("unit", "t1").unwrap().outcome, Outcome::Fail);
    assert_eq!(store.len(), 1);
}

#[test]
fn retest_runs_only_what_failed() {
    let mut store = ResultStore::new();
    let mut runs = 0;
    drive(job("c1", "t1", "good", "true"), &Policy::new(), &mut store, true, &mut runs);
    drive(job("c1", "t1", "bad", "false"), &Policy::new(), &mut store, false, &mut runs);
    assert_eq!(runs, 2);
    let retest = Policy { retest: true, ..Policy::new() };
    let good = drive(job("c1", "t1", "good", "true"), &retest, &mut store, false, &mut runs);
    assert_eq!(runs, 2);
    assert!(matches!(good.state, JobState::Skipped(Some(_))));
    assert_eq!(store.get("good", "t1").unwrap().outcome, Outcome::Pass);
    let bad = drive(job("c1", "t1", "bad", "false"), &retest, &mut store, true, &mut runs);
    assert_eq!(runs, 3);
    assert!(matches!(bad.state, JobState::Done(_)));
    assert_eq!(store.get("bad", "t1").unwrap().outcome, Outcome::Pass);
}

#[test]
fn a_dry_run_asks_for_nothing_and_writes_nothing() {
    let dry = Policy { dry_run: true, ..Policy::new() };
    let mut store = ResultStore::new();
    let mut runs = 0;
    drive(job("c1", "t1", "known", "true"), &Policy::new(), &mut store, true, &mut runs);
    let before = store.len();

    let events = || {
        vec![
            Event::Start,
            Event::Provisioned,
            exited(true, 1),
            Event::Recorded,
            Event::ProvisionFailed("x".to_string()),
            Event::LaunchFailed("x".to_string()),
            Event::RemoveFailed("x".to_string()),
            Event::StoreFailed("x".to_string()),
            Event::Start,
        ]
    };
    for (test, policy) in [
        ("known", dry),
        ("unknown", dry),
        ("known", Policy { force: true, ..dry }),
        ("known", Policy { forget: true, ..dry }),
        ("known", Policy { retest: true, ..dry }),
    ] {
        let mut job = job("c1", "t1", test, "true");
        for event in events() {
            let (next, action) = job.step(&policy, &mut store, event);
            assert_eq!(action, Action::Nothing);
            job = next;
        }
        assert!(matches!(job.state, JobState::Skipped(_)));
        assert_eq!(store.len(), before);
        assert_eq!(store.get("known", "t1").unwrap().outcome, Outcome::Pass);
    }
    let known = drive(job("c1", "t1", "known", "true"), &dry, &mut store, true, &mut runs);
    assert_eq!(known.verdict().unwrap().outcome, Outcome::Pass);
    let unknown = drive(job("c1", "t1", "unknown", "true"), &dry, &mut store, true, &mut runs);
    assert_eq!(unknown.state, JobState::Skipped(None));
    assert!(!unknown.has_failed());
    assert_eq!(runs, 1);
}

#[test]
fn forget_sets_the_stored_verdict_aside_and_runs_the_test() {
    let mut store = ResultStore::new();
    let mut runs = 0;
    drive(job("c1", "t1", "unit", "true"), &Policy::new(), &mut store, true, &mut runs);
    let forget = Policy { forget: true, ..Policy::new() };
    let (started, action) = job("c1", "t1", "unit", "true").step(&forget, &mut store, Event::Start);
    assert!(matches!(action, Action::Provision(_)));
    assert_eq!(started.state, JobState::Provisioning);
    assert_eq!(store.get("unit", "t1").unwrap().outcome, Outcome::Pass);
    let again = drive(job("c1", "t1", "unit", "true"), &forget, &mut store, false, &mut runs);
    assert_eq!(runs, 2);
    assert!(matches!(again.state, JobState::Done(_)));
    assert_eq!(store.get("unit", "t1").unwrap().outcome, Outcome::Fail);
    assert_eq!(store.len(), 1);
}

#[test]
fn retest_with_forget_runs_a_stored_failure_again() {
    let mut store = ResultStore::new();
    let mut runs = 0;
    drive(job("c1", "t1", "bad", "false"), &Policy::new(), &mut store, false, &mut runs);
    let policy = Policy { retest: true, forget: true, ..Policy::new() };
    let again = drive(job("c1", "t1", "bad", "false"), &policy, &mut store, true, &mut runs);
    assert_eq!(runs, 2);
    assert!(matches!(again.state, JobState::Done(_)));
    assert_eq!(store.get("bad", "t1").unwrap().outcome, Outcome::Pass);
}

#[test]
fn no_step_of_a_job_deletes_a_verdict() {
    let mut runs = 0;
    for policy in [
        Policy::new(),
        Policy { force: true, ..Policy::new() },
        Policy { forget: true, ..Policy::new() },
        Policy { retest: true, ..Policy::new() },
        Policy { dry_run: true, forget: true, ..Policy::new() },
    ] {
        let mut store = ResultStore::new();
        drive(job("c1", "t1", "unit", "true"), &Policy::new(), &mut store, false, &mut runs);
        drive(job("c1", "t1", "lint", "true"), &Policy::new(), &mut store, true, &mut runs);
        let mut job = job("c1", "t1", "unit", "true");
        for event in [
            Event::Start,
            Event::Provisioned,
            exited(true, 1),
            Event::StoreFailed("x".to_string()),
            Event::Interrupted,
        ] {
            let (next, _) = job.step(&policy, &mut store, event);
            job = next;
            assert!(store.get("unit", "t1").is_some());
            assert!(store.get("lint", "t1").is_some());
        }
    }
}

#[test]
fn a_failed_checkout_is_a_provision_error_and_is_cleaned_up() {
    let policy = Policy::new();
    let mut store = ResultStore::new();
    let (job, _) = job("c1", "t1", "unit", "true").step(&policy, &mut store, Event::Start);
    let (job, action) =
        job.step(&policy, &mut store, Event::ProvisionFailed("path is not empty".to_string()));
    match &job.state {
        JobState::Errored(error) => {
            assert_eq!(error.kind, ErrorKind::Provision);
            assert_eq!(error.message, "path is not empty");
        }
        other => panic!("unexpected state {:?}", other),
    }
    assert!(matches!(action, Action::Cleanup(ref steps) if steps.len() == 1));
    assert!(job.is_terminal());
    assert!(job.has_failed());
    assert_eq!(job.verdict(), None);
    assert_eq!(store.len(), 0);
}

#[test]
fn a_test_that_cannot_start_is_an_execution_error_and_is_cleaned_up() {
    let policy = Policy::new();
    let mut store = ResultStore::new();
    let (job, _) = job("c1", "t1", "unit", "true").step(&policy, &mut store, Event::Start);
    let (job, _) = job.step(&policy, &mut store, Event::Provisioned);
    let (job, action) = job.step(&policy, &mut store, Event::LaunchFailed("no shell".to_string()));
    match &job.state {
        JobState::Errored(error) => {
            assert_eq!(error.kind, ErrorKind::Execution);
            assert_eq!(error.message, "no shell");
        }
        other => panic!("unexpected state {:?}", other),
    }
    assert!(matches!(action, Action::Cleanup(ref steps) if steps.len() == 1));
    assert_eq!(store.len(), 0);
}

#[test]
fn a_verdict_that_cannot_be_written_is_a_store_error_and_is_not_remembered() {
    let policy = Policy::new();
    let mut store = ResultStore::new();
    let (job, _) = job("c1", "t1", "unit", "true").step(&policy, &mut store, Event::Start);
    let (job, _) = job.step(&policy, &mut store, Event::Provisioned);
    let (job, _) = job.step(&policy, &mut store, exited(true, 1));
    let (job, action) = job.step(&policy, &mut store, Event::StoreFailed("disk full".to_string()));
    assert_eq!(action, Action::Nothing);
    match &job.state {
        JobState::Errored(error) => {
            assert_eq!(error.kind, ErrorKind::Store);
            assert_eq!(error.message, "disk full");
        }
        other => panic!("unexpected state {:?}", other),
    }
    assert_eq!(store.get("unit", "t1"), None);
    let mut runs = 0;
    drive(job_again(), &policy, &mut store, true, &mut runs);
    assert_eq!(runs, 1);
}

fn job_again() -> Job {
    job("c1", "t1", "unit", "true")
}

#[test]
fn a_checkout_that_cannot_be_removed_is_a_provision_error() {
    let policy = Policy::new();
    let mut store = ResultStore::new();
    let (job, _) = job("c1", "t1", "unit", "true").step(&policy, &mut store, Event::Start);
    let (job, _) = job.step(&policy, &mut store, Event::Provisioned);
    let (job, _) = job.step(&policy, &mut store, exited(true, 1));
    let (job, _) = job.step(&policy, &mut store, Event::RemoveFailed("busy".to_string()));
    match &job.state {
        JobState::Errored(error) => assert_eq!(error.kind, ErrorKind::Provision),
        other => panic!("unexpected state {:?}", other),
    }
    assert_eq!(store.len(), 0);
}

#[test]
fn events_out_of_turn_change_nothing() {
    let policy = Policy::new();
    let mut store = ResultStore::new();
    let (job, action) = job("c1", "t1", "unit", "true").step(&policy, &mut store, Event::Recorded);
    assert_eq!(action, Action::Nothing);
    assert_eq!(job.state, JobState::Pending);
    let (job, _) = job.step(&policy, &mut store, Event::Start);
    let (job, action) = job.step(&policy, &mut store, exited(true, 1));
    assert_eq!(action, Action::Nothing);
    assert_eq!(job.state, JobState::Provisioning);
    let (job, action) = job.step(&policy, &mut store, Event::Start);
    assert_eq!(action, Action::Nothing);
    assert_eq!(job.state, JobState::Provisioning);
    assert_eq!(store.len(), 0);
}

#[test]
fn a_job_that_has_ended_stays_as_it_is() {
    let policy = Policy::new();
    let mut store = ResultStore::new();
    let mut runs = 0;
    let mut job = drive(job("c1", "t1", "unit", "true"), &policy, &mut store, true, &mut runs);
    let done = job.verdict().cloned();
    for event in [Event::Start, Event::Provisioned, exited(false, 9), Event::Recorded] {
        let (next, action) = job.step(&policy, &mut store, event);
        assert_eq!(action, Action::Nothing);
        job = next;
    }
    assert_eq!(job.verdict().cloned(), done);
    assert_eq!(store.get("unit", "t1").cloned(), done);
}

#[test]
fn in_the_primary_working_copy_nothing_is_checked_out() {
    let policy = Policy::new();
    let mut store = ResultStore::new();
    let job = Job::new(
        &repo().to_worktree_config(),
        GitSha::new("c1".to_string()),
        GitSha::new("t1".to_string()),
        repo().test_command("unit".to_string(), "true".to_string()),
    );
    let (job, action) = job.step(&policy, &mut store, Event::Start);
    assert_eq!(action, Action::Provision(Vec::new()));
    let (job, action) = job.step(&policy, &mut store, Event::Provisioned);
    match action {
        Action::Execute(invocation) => assert_eq!(invocation.dir, Some("/work/repo".to_string())),
        other => panic!("unexpected action {:?}", other),
    }
    let (_, action) = job.step(&policy, &mut store, exited(true, 1));
    assert!(matches!(action, Action::Record { ref cleanup, .. } if cleanup.is_empty()));
}

#[test]
fn an_interruption_ends_a_job_and_stores_nothing() {
    let policy = Policy::new();
    let mut store = ResultStore::new();

    let (pending, action) =
        job("c1", "t1", "unit", "true").step(&policy, &mut store, Event::Interrupted);
    assert_eq!(action, Action::Nothing);
    assert_eq!(pending.state, JobState::Skipped(None));

    let (provisioning, _) = job("c1", "t1", "unit", "true").step(&policy, &mut store, Event::Start);
    let (ended, action) = provisioning.step(&policy, &mut store, Event::Interrupted);
    assert!(matches!(action, Action::Cleanup(ref steps) if steps.len() == 1));
    match &ended.state {
        JobState::Errored(error) => {
            assert_eq!(error.kind, ErrorKind::Execution);
            assert_eq!(error.message, "Interrupted");
        }
        other => panic!("unexpected state {:?}", other),
    }

    let (started, _) = job("c1", "t1", "unit", "true").step(&policy, &mut store, Event::Start);
    let (running, _) = started.step(&policy, &mut store, Event::Provisioned);
    let (recording, _) = running.step(&policy, &mut store, exited(true, 1));
    let (ended, action) = recording.step(&policy, &mut store, Event::Interrupted);
    assert!(matches!(action, Action::Cleanup(_)));
    assert!(matches!(ended.state, JobState::Errored(_)));
    assert_eq!(ended.verdict(), None);
    assert_eq!(store.len(), 0);

    let mut runs = 0;
    drive(job("c1", "t1", "unit", "true"), &policy, &mut store, true, &mut runs);
    assert_eq!(runs, 1);
}

#[test]
fn verdicts_are_kept_under_the_reference_of_their_test() {
    assert_eq!(git_test::scheduler::verdict_reference("unit"), "refs/notes/tests/unit");
    assert_eq!(
        repo().show_note("refs/notes/tests/unit", "t1").args,
        words(&["-C", "/work/repo", "notes", "--ref", "refs/notes/tests/unit", "show", "t1"])
    );
}
