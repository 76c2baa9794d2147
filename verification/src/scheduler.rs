//! The life of one job: a test on a commit, from the look into the store to
//! the verdict.

use vstd::prelude::*;
use vstd::string::StringExecFns;
use crate::command::{
    git_invocation, shell, shell_invocation, Invocation, InvocationView, Operation, OperationView,
};
use crate::error::{ErrorKind, GitTestError, GitTestErrorView};
use crate::git::{
    creation, deletion, worktree_for, worktree_path, GitSha, GitTestCommand, GitTestCommandView,
    Worktree, WorktreeConfig, WorktreeView,
};
use crate::store::{
    found, marker_of, outcome_of, recorded, Outcome, ResultStore, Verdict, VerdictView,
};

verus! {

/// What the caller asked of a run.
#[derive(Clone, Copy, Debug, PartialEq, Eq, Structural)]
pub struct Policy {
    /// Run every test again and replace what is stored.
    pub force: bool,
    /// Set aside what is stored: the test is run as if nothing were stored,
    /// and its verdict takes the place of the stored one.
    pub forget: bool,
    /// Run again the tests whose stored verdict is a failure.
    pub retest: bool,
    /// Go on to the next commit after a commit with a failure.
    pub keep_going: bool,
    /// Look into the store only: make no checkout, run nothing, write
    /// nothing.
    pub dry_run: bool,
}

/// What is done about a job, given what the store holds for it.
#[derive(Debug, PartialEq, Eq)]
pub enum Plan {
    /// The stored verdict stands.
    Reuse(Verdict),
    /// Nothing usable is stored and nothing is run.
    Unknown,
    /// The test is run.
    Execute,
}

pub enum PlanView {
    Reuse(VerdictView),
    Unknown,
    Execute,
}

impl View for Plan {
    type V = PlanView;

    open spec fn view(&self) -> PlanView {
        match self {
            Plan::Reuse(verdict) => PlanView::Reuse(verdict@),
            Plan::Unknown => PlanView::Unknown,
            Plan::Execute => PlanView::Execute,
        }
    }
}

/// Whether a stored verdict answers the job under `policy`.
pub open spec fn usable(policy: Policy, cached: Option<VerdictView>) -> bool {
    &&& cached is Some
    &&& !policy.force
    &&& !policy.forget
    &&& !(policy.retest && cached->0.outcome == Outcome::Fail)
}

/// What `policy` asks for a job for which the store holds `cached`. A
/// usable verdict is reused under every policy. Else `dry_run` leaves the
/// job unknown, and every other policy runs it.
pub open spec fn planned(policy: Policy, cached: Option<VerdictView>) -> PlanView {
    if usable(policy, cached) {
        PlanView::Reuse(cached->0)
    } else if policy.dry_run {
        PlanView::Unknown
    } else {
        PlanView::Execute
    }
}

impl Policy {
    /// The policy of a run without any request.
    pub fn new() -> (r: Policy)
        ensures
            r == (Policy {
                force: false,
                forget: false,
                retest: false,
                keep_going: false,
                dry_run: false,
            }),
    {
        Policy { force: false, forget: false, retest: false, keep_going: false, dry_run: false }
    }

    /// What is done about a job for which the store holds `cached`.
    pub fn plan(&self, cached: Option<&Verdict>) -> (r: Plan)
        ensures
            r@ == planned(*self, cached.deep_view()),
    {
        match cached {
            Some(verdict) if !self.force && !self.forget && !(self.retest
                && !verdict.outcome.is_pass()) => Plan::Reuse(verdict.clone()),
            _ => {
                if self.dry_run {
                    Plan::Unknown
                } else {
                    Plan::Execute
                }
            },
        }
    }
}

/// Where a job stands. `Skipped`, `Done` and `Errored` are final.
#[derive(Debug, PartialEq, Eq)]
pub enum JobState {
    /// Nothing was done yet.
    Pending,
    /// The working copy is being made.
    Provisioning,
    /// The test is running.
    Running,
    /// The test has ended; the working copy is being removed and the
    /// verdict written.
    Recording(Verdict),
    /// The test was not run: the stored verdict stands, or none is known.
    Skipped(Option<Verdict>),
    /// The test was run and its verdict is stored.
    Done(Verdict),
    /// A step of the job failed.
    Errored(GitTestError),
}

pub enum JobStateView {
    Pending,
    Provisioning,
    Running,
    Recording(VerdictView),
    Skipped(Option<VerdictView>),
    Done(VerdictView),
    Errored(GitTestErrorView),
}

impl View for JobState {
    type V = JobStateView;

    open spec fn view(&self) -> JobStateView {
        match self {
            JobState::Pending => JobStateView::Pending,
            JobState::Provisioning => JobStateView::Provisioning,
            JobState::Running => JobStateView::Running,
            JobState::Recording(verdict) => JobStateView::Recording(verdict@),
            JobState::Skipped(verdict) => JobStateView::Skipped(verdict.deep_view()),
            JobState::Done(verdict) => JobStateView::Done(verdict@),
            JobState::Errored(error) => JobStateView::Errored(error@),
        }
    }
}

/// A final state: no event changes it.
pub open spec fn terminal(state: JobStateView) -> bool {
    state is Skipped || state is Done || state is Errored
}

/// What happened to the step that a job asked for.
#[derive(Debug, PartialEq, Eq)]
pub enum Event {
    /// The job may begin.
    Start,
    /// The working copy is there.
    Provisioned,
    /// The working copy could not be made.
    ProvisionFailed(String),
    /// The test ran and ended.
    Exited { success: bool, stdout: String, stderr: String, timestamp: u64 },
    /// The test could not be started.
    LaunchFailed(String),
    /// The working copy is gone and the verdict is written.
    Recorded,
    /// The working copy could not be removed.
    RemoveFailed(String),
    /// The verdict could not be written.
    StoreFailed(String),
    /// The run was interrupted from outside.
    Interrupted,
}

pub enum EventView {
    Start,
    Provisioned,
    ProvisionFailed(Seq<char>),
    Exited { success: bool, stdout: Seq<char>, stderr: Seq<char>, timestamp: u64 },
    LaunchFailed(Seq<char>),
    Recorded,
    RemoveFailed(Seq<char>),
    StoreFailed(Seq<char>),
    Interrupted,
}

impl View for Event {
    type V = EventView;

    open spec fn view(&self) -> EventView {
        match self {
            Event::Start => EventView::Start,
            Event::Provisioned => EventView::Provisioned,
            Event::ProvisionFailed(words) => EventView::ProvisionFailed(words@),
            Event::Exited { success, stdout, stderr, timestamp } => EventView::Exited {
                success: *success,
                stdout: stdout@,
                stderr: stderr@,
                timestamp: *timestamp,
            },
            Event::LaunchFailed(words) => EventView::LaunchFailed(words@),
            Event::Recorded => EventView::Recorded,
            Event::RemoveFailed(words) => EventView::RemoveFailed(words@),
            Event::StoreFailed(words) => EventView::StoreFailed(words@),
            Event::Interrupted => EventView::Interrupted,
        }
    }
}

/// What the caller does next for a job. After `Provision`, `Execute` and
/// `Record` it hands the job the event that tells how the step went.
#[derive(Debug, PartialEq, Eq)]
pub enum Action {
    /// Nothing: the job waits or has ended.
    Nothing,
    /// Make the working copy by these steps.
    Provision(Vec<Operation>),
    /// Run the test.
    Execute(Invocation),
    /// Remove the working copy by the steps of `cleanup`, then write the
    /// verdict with `note`.
    Record { cleanup: Vec<Operation>, note: Invocation },
    /// Remove what there is of the working copy, as far as that succeeds.
    Cleanup(Vec<Operation>),
}

pub enum ActionView {
    Nothing,
    Provision(Seq<OperationView>),
    Execute(InvocationView),
    Record { cleanup: Seq<OperationView>, note: InvocationView },
    Cleanup(Seq<OperationView>),
}

impl View for Action {
    type V = ActionView;

    open spec fn view(&self) -> ActionView {
        match self {
            Action::Nothing => ActionView::Nothing,
            Action::Provision(steps) => ActionView::Provision(steps.deep_view()),
            Action::Execute(invocation) => ActionView::Execute(invocation@),
            Action::Record { cleanup, note } => ActionView::Record {
                cleanup: cleanup.deep_view(),
                note: note@,
            },
            Action::Cleanup(steps) => ActionView::Cleanup(steps.deep_view()),
        }
    }
}

/// The verdict with which a job has ended, if it has ended with one.
pub open spec fn final_verdict(state: JobStateView) -> Option<VerdictView> {
    match state {
        JobStateView::Skipped(verdict) => verdict,
        JobStateView::Done(verdict) => Some(verdict),
        _ => None,
    }
}

/// A job that counts as a failure: a step of it failed, or its test did.
pub open spec fn job_failed(state: JobStateView) -> bool {
    state is Errored || (final_verdict(state) is Some && final_verdict(state)->0.outcome
        == Outcome::Fail)
}

/// One test on one commit.
#[derive(Debug, PartialEq, Eq)]
pub struct Job {
    pub commit: GitSha,
    pub tree: GitSha,
    pub test: GitTestCommand,
    pub worktree: Worktree,
    pub state: JobState,
}

pub struct JobView {
    pub commit: Seq<char>,
    pub tree: Seq<char>,
    pub test: GitTestCommandView,
    pub worktree: WorktreeView,
    pub state: JobStateView,
}

impl View for Job {
    type V = JobView;

    open spec fn view(&self) -> JobView {
        JobView {
            commit: self.commit@,
            tree: self.tree@,
            test: self.test@,
            worktree: self.worktree@,
            state: self.state@,
        }
    }
}

impl DeepView for Job {
    type V = JobView;

    open spec fn deep_view(&self) -> JobView {
        self@
    }
}

/// The notes reference under which the verdicts of test `name` are kept.
pub open spec fn verdict_ref(name: Seq<char>) -> Seq<char> {
    "refs/notes/tests/"@ + name
}

/// The invocation that writes `verdict` for the repository `repo`: a note
/// on the tree, under the reference of the test, that holds the mark of
/// the outcome.
pub open spec fn verdict_note(repo: Seq<char>, verdict: VerdictView) -> InvocationView {
    git_invocation(
        repo,
        seq![
            "notes"@,
            "--ref"@,
            verdict_ref(verdict.test_name),
            "add"@,
            "-f"@,
            "-m"@,
            marker_of(verdict.outcome),
            verdict.tree,
        ],
    )
}

/// A job, the verdicts of the store and an action, as a step leaves them.
pub struct Step {
    pub job: JobView,
    pub verdicts: Seq<VerdictView>,
    pub action: ActionView,
}

/// The job `job` in the state `state`.
pub open spec fn in_state(job: JobView, state: JobStateView) -> JobView {
    JobView { state, ..job }
}

/// The failure of a job that was interrupted.
pub open spec fn interrupted() -> GitTestErrorView {
    GitTestErrorView { kind: ErrorKind::Execution, message: "Interrupted"@ }
}

/// What the event `event` does to `job` under `policy`, with `verdicts` in
/// the store. An interruption ends a job that has not ended: one that was
/// not begun is skipped, and one that was under way fails and has its
/// working copy removed, without a verdict being stored. Any other event
/// that does not answer the job's last action changes nothing.
pub open spec fn job_step(
    policy: Policy,
    verdicts: Seq<VerdictView>,
    job: JobView,
    event: EventView,
) -> Step {
    let idle = Step { job, verdicts, action: ActionView::Nothing };
    match (job.state, event) {
        (JobStateView::Pending, EventView::Start) => match planned(
            policy,
            found(verdicts, job.test.test_name, job.tree),
        ) {
            PlanView::Reuse(verdict) => Step {
                job: in_state(job, JobStateView::Skipped(Some(verdict))),
                verdicts,
                action: ActionView::Nothing,
            },
            PlanView::Unknown => Step {
                job: in_state(job, JobStateView::Skipped(None)),
                verdicts,
                action: ActionView::Nothing,
            },
            PlanView::Execute => Step {
                job: in_state(job, JobStateView::Provisioning),
                verdicts,
                action: ActionView::Provision(creation(job.worktree)),
            },
        },
        (JobStateView::Provisioning, EventView::Provisioned) => Step {
            job: in_state(job, JobStateView::Running),
            verdicts,
            action: ActionView::Execute(
                shell_invocation(job.test.test_command, worktree_path(job.worktree)),
            ),
        },
        (JobStateView::Provisioning, EventView::ProvisionFailed(words)) => Step {
            job: in_state(
                job,
                JobStateView::Errored(
                    GitTestErrorView { kind: ErrorKind::Provision, message: words },
                ),
            ),
            verdicts,
            action: ActionView::Cleanup(deletion(job.worktree)),
        },
        (JobStateView::Running, EventView::Exited { success, stdout, stderr, timestamp }) => {
            let verdict = VerdictView {
                test_name: job.test.test_name,
                tree: job.tree,
                outcome: outcome_of(success),
                stdout,
                stderr,
                timestamp,
            };
            Step {
                job: in_state(job, JobStateView::Recording(verdict)),
                verdicts,
                action: ActionView::Record {
                    cleanup: deletion(job.worktree),
                    note: verdict_note(job.test.repo, verdict),
                },
            }
        },
        (JobStateView::Running, EventView::LaunchFailed(words)) => Step {
            job: in_state(
                job,
                JobStateView::Errored(
                    GitTestErrorView { kind: ErrorKind::Execution, message: words },
                ),
            ),
            verdicts,
            action: ActionView::Cleanup(deletion(job.worktree)),
        },
        (JobStateView::Recording(verdict), EventView::Recorded) => Step {
            job: in_state(job, JobStateView::Done(verdict)),
            verdicts: recorded(verdicts, verdict),
            action: ActionView::Nothing,
        },
        (JobStateView::Recording(verdict), EventView::RemoveFailed(words)) => Step {
            job: in_state(
                job,
                JobStateView::Errored(
                    GitTestErrorView { kind: ErrorKind::Provision, message: words },
                ),
            ),
            verdicts,
            action: ActionView::Nothing,
        },
        (JobStateView::Recording(verdict), EventView::StoreFailed(words)) => Step {
            job: in_state(
                job,
                JobStateView::Errored(GitTestErrorView { kind: ErrorKind::Store, message: words }),
            ),
            verdicts,
            action: ActionView::Nothing,
        },
        (JobStateView::Pending, EventView::Interrupted) => Step {
            job: in_state(job, JobStateView::Skipped(None)),
            verdicts,
            action: ActionView::Nothing,
        },
        (JobStateView::Provisioning, EventView::Interrupted)
        | (JobStateView::Running, EventView::Interrupted)
        | (JobStateView::Recording(_), EventView::Interrupted) => Step {
            job: in_state(job, JobStateView::Errored(interrupted())),
            verdicts,
            action: ActionView::Cleanup(deletion(job.worktree)),
        },
        _ => idle,
    }
}

/// The notes reference under which the verdicts of test `name` are kept.
pub fn verdict_reference(name: &str) -> (r: String)
    ensures
        r@ == verdict_ref(name@),
{
    let mut reference = String::from_str("refs/notes/tests/");
    reference.append(name);
    reference
}

impl Job {
    /// The job of running `test` on `commit`, whose tree is `tree`, in the
    /// working copy that `config` gives it. Nothing was done yet.
    pub fn new(config: &WorktreeConfig, commit: GitSha, tree: GitSha, test: GitTestCommand) -> (r:
        Job)
        ensures
            r@ == (JobView {
                commit: commit@,
                tree: tree@,
                test: test@,
                worktree: worktree_for(config@, commit@, test.test_name@),
                state: JobStateView::Pending,
            }),
    {
        let worktree = config.to_worktree(commit.clone(), test.test_name.as_str());
        Job { commit, tree, test, worktree, state: JobState::Pending }
    }

    /// Whether the job has ended.
    pub fn is_terminal(&self) -> (r: bool)
        ensures
            r == terminal(self@.state),
    {
        match &self.state {
            JobState::Skipped(_) => true,
            JobState::Done(_) => true,
            JobState::Errored(_) => true,
            _ => false,
        }
    }

    /// The verdict with which the job has ended, if it has ended with one.
    pub fn verdict(&self) -> (r: Option<&Verdict>)
        ensures
            r.deep_view() == final_verdict(self@.state),
    {
        match &self.state {
            JobState::Skipped(Some(verdict)) => Some(verdict),
            JobState::Done(verdict) => Some(verdict),
            _ => None,
        }
    }

    /// Whether the job counts as a failure.
    pub fn has_failed(&self) -> (r: bool)
        ensures
            r == job_failed(self@.state),
    {
        match &self.state {
            JobState::Errored(_) => true,
            JobState::Skipped(Some(verdict)) => !verdict.outcome.is_pass(),
            JobState::Done(verdict) => !verdict.outcome.is_pass(),
            _ => false,
        }
    }

    /// Takes the job one step on: `event` tells how the last action went,
    /// and the action that comes back is the caller's next step.
    pub fn step(self, policy: &Policy, store: &mut ResultStore, event: Event) -> (r: (Job, Action))
        ensures
            r.0@ == job_step(*policy, old(store)@.verdicts, self@, event@).job,
            r.1@ == job_step(*policy, old(store)@.verdicts, self@, event@).action,
            final(store)@.verdicts == job_step(
                *policy,
                old(store)@.verdicts,
                self@,
                event@,
            ).verdicts,
            final(store)@.summaries == old(store)@.summaries,
    {
        let Job { commit, tree, test, worktree, state } = self;
        match (state, event) {
            (JobState::Pending, Event::Start) => {
                let plan = policy.plan(store.get(test.test_name.as_str(), tree.as_str()));
                match plan {
                    Plan::Reuse(verdict) => (
                        Job { commit, tree, test, worktree, state: JobState::Skipped(Some(verdict)) },
                        Action::Nothing,
                    ),
                    Plan::Unknown => (
                        Job { commit, tree, test, worktree, state: JobState::Skipped(None) },
                        Action::Nothing,
                    ),
                    Plan::Execute => {
                        let action = Action::Provision(worktree.create());
                        (
                            Job { commit, tree, test, worktree, state: JobState::Provisioning },
                            action,
                        )
                    },
                }
            },
            (JobState::Provisioning, Event::Provisioned) => {
                let dir = worktree.get_path();
                let action = Action::Execute(shell(test.test_command.as_str(), dir.as_str()));
                (Job { commit, tree, test, worktree, state: JobState::Running }, action)
            },
            (JobState::Provisioning, Event::ProvisionFailed(words)) => {
                let action = Action::Cleanup(worktree.delete());
                let error = GitTestError::new(ErrorKind::Provision, words);
                (Job { commit, tree, test, worktree, state: JobState::Errored(error) }, action)
            },
            (JobState::Running, Event::Exited { success, stdout, stderr, timestamp }) => {
                let verdict = Verdict {
                    test_name: test.test_name.clone(),
                    tree: tree.clone(),
                    outcome: Outcome::from_success(success),
                    stdout,
                    stderr,
                    timestamp,
                };
                let reference = verdict_reference(test.test_name.as_str());
                let note = test.repo.add_note(
                    reference.as_str(),
                    tree.as_str(),
                    verdict.outcome.marker(),
                );
                let action = Action::Record { cleanup: worktree.delete(), note };
                (Job { commit, tree, test, worktree, state: JobState::Recording(verdict) }, action)
            },
            (JobState::Running, Event::LaunchFailed(words)) => {
                let action = Action::Cleanup(worktree.delete());
                let error = GitTestError::new(ErrorKind::Execution, words);
                (Job { commit, tree, test, worktree, state: JobState::Errored(error) }, action)
            },
            (JobState::Recording(verdict), Event::Recorded) => {
                store.put(verdict.clone());
                (Job { commit, tree, test, worktree, state: JobState::Done(verdict) }, Action::Nothing)
            },
            (JobState::Recording(_), Event::RemoveFailed(words)) => {
                let error = GitTestError::new(ErrorKind::Provision, words);
                (
                    Job { commit, tree, test, worktree, state: JobState::Errored(error) },
                    Action::Nothing,
                )
            },
            (JobState::Recording(_), Event::StoreFailed(words)) => {
                let error = GitTestError::new(ErrorKind::Store, words);
                (
                    Job { commit, tree, test, worktree, state: JobState::Errored(error) },
                    Action::Nothing,
                )
            },
            (JobState::Pending, Event::Interrupted) => (
                Job { commit, tree, test, worktree, state: JobState::Skipped(None) },
                Action::Nothing,
            ),
            (JobState::Provisioning, Event::Interrupted)
            | (JobState::Running, Event::Interrupted)
            | (JobState::Recording(_), Event::Interrupted) => {
                let action = Action::Cleanup(worktree.delete());
                let error = GitTestError::new(
                    ErrorKind::Execution,
                    String::from_str("Interrupted"),
                );
                (Job { commit, tree, test, worktree, state: JobState::Errored(error) }, action)
            },
            (state, _) => (Job { commit, tree, test, worktree, state }, Action::Nothing),
        }
    }
}

} // verus!
