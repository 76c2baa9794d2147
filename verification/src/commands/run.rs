//! Running tests against commits: what is asked for, the jobs of each
//! commit, and the course of a run over its commits.

use vstd::prelude::*;
use vstd::string::StringExecFns;
use crate::command::{git_invocation, Invocation, InvocationView};
use crate::config::{assigned, lookup, GitConfig};
use crate::error::{ErrorKind, GitTestError, GitTestErrorView};
use crate::git::{
    listable, listed, listing_failure, test_key, undefined_test, worktree_for, GitRepository, GitRepositoryWorktreeExt,
    GitSha, GitTestCommand, GitTestCommandView, WorktreeConfig, WorktreeConfigView,
};
use crate::log_util::{plain_line, Level, LogLine, LogLineView};
use crate::path::joined;
use crate::scheduler::{
    final_verdict, job_failed, terminal, Job, JobState, JobStateView, JobView, Policy,
};
use crate::store::{outcome_word, summary_text, ResultStore, Verdict, VerdictView};
use crate::text::trimmed;

verus! {

/// The jobs of one commit: one for each of `tests`, in their order, none
/// of them begun.
pub open spec fn jobs_for(
    config: WorktreeConfigView,
    commit: Seq<char>,
    tree: Seq<char>,
    tests: Seq<GitTestCommandView>,
) -> Seq<JobView> {
    Seq::new(
        tests.len(),
        |i: int|
            JobView {
                commit,
                tree,
                test: tests[i],
                worktree: worktree_for(config, commit, tests[i].test_name),
                state: JobStateView::Pending,
            },
    )
}

/// Every job has ended.
pub open spec fn all_terminal(jobs: Seq<JobView>) -> bool {
    forall|i: int| 0 <= i < jobs.len() ==> terminal(#[trigger] jobs[i].state)
}

/// Every job has ended with a verdict.
pub open spec fn all_judged(jobs: Seq<JobView>) -> bool {
    forall|i: int| 0 <= i < jobs.len() ==> final_verdict(#[trigger] jobs[i].state) is Some
}

/// One of the jobs counts as a failure.
pub open spec fn any_failed(jobs: Seq<JobView>) -> bool {
    exists|i: int| 0 <= i < jobs.len() && job_failed(#[trigger] jobs[i].state)
}

/// The verdicts with which jobs have ended, in the order of the jobs.
pub open spec fn verdicts_of(jobs: Seq<JobView>) -> Seq<VerdictView>
    decreases jobs.len(),
{
    if jobs.len() == 0 {
        seq![]
    } else {
        match final_verdict(jobs.last().state) {
            Some(verdict) => verdicts_of(jobs.drop_last()).push(verdict),
            None => verdicts_of(jobs.drop_last()),
        }
    }
}

/// The invocation that writes the summary `text` as the note of `commit`.
pub open spec fn summary_note(repo: Seq<char>, commit: Seq<char>, text: Seq<char>) -> InvocationView {
    git_invocation(
        repo,
        seq!["notes"@, "--ref"@, "refs/notes/commits"@, "add"@, "-f"@, "-m"@, text, commit],
    )
}

/// The jobs that run `tests` on `sha`, whose tree is `tree`, each in the
/// working copy that `worktree_config` gives it.
pub fn run_tests_for_commit(
    tests: &Vec<GitTestCommand>,
    sha: &GitSha,
    tree: &GitSha,
    worktree_config: &WorktreeConfig,
) -> (r: Vec<Job>)
    ensures
        r.deep_view() == jobs_for(worktree_config@, sha@, tree@, tests.deep_view()),
{
    let mut jobs: Vec<Job> = Vec::new();
    let mut i: usize = 0;
    while i < tests.len()
        invariant
            i <= tests.len(),
            jobs.len() == i,
            forall|j: int|
                0 <= j < i ==> (#[trigger] jobs[j])@ == jobs_for(
                    worktree_config@,
                    sha@,
                    tree@,
                    tests.deep_view(),
                )[j],
        decreases tests.len() - i,
    {
        jobs.push(Job::new(worktree_config, sha.clone(), tree.clone(), tests[i].clone()));
        i += 1;
    }
    assert(jobs.deep_view() =~= jobs_for(worktree_config@, sha@, tree@, tests.deep_view()));
    jobs
}

/// What is said of a job that is in the state `state`: the word for the
/// outcome of a test that ran, the same with `(known)` for a verdict that
/// was reused, `unknown` where nothing is known, and after `error:` the
/// words of a step that failed, so that a test that failed and a step that
/// failed read differently.
pub open spec fn job_words(state: JobStateView) -> Seq<char> {
    match state {
        JobStateView::Done(verdict) => outcome_word(verdict.outcome),
        JobStateView::Skipped(Some(verdict)) => outcome_word(verdict.outcome) + " (known)"@,
        JobStateView::Skipped(None) => "unknown"@,
        JobStateView::Errored(error) => "error: "@ + error.message,
        _ => "did not end"@,
    }
}

/// The message that reports a job: its commit and test, then what is said
/// of it. A job that has ended with or without a verdict is reported for
/// information, every other job as an error.
pub open spec fn job_line(job: JobView) -> LogLineView {
    plain_line(
        if job.state is Done || job.state is Skipped {
            Level::Info
        } else {
            Level::Error
        },
        job.commit + " "@ + job.test.test_name + ": "@ + job_words(job.state),
    )
}

/// The message that reports how `job` stands.
pub fn job_report(job: &Job) -> (r: LogLine)
    ensures
        r@ == job_line(job@),
{
    let mut words = String::from_str(job.commit.as_str());
    words.append(" ");
    words.append(job.test.test_name.as_str());
    words.append(": ");
    let ghost head = words@;
    let level = match &job.state {
        JobState::Done(verdict) => {
            words.append(verdict.outcome.word());
            Level::Info
        },
        JobState::Skipped(Some(verdict)) => {
            words.append(verdict.outcome.word());
            words.append(" (known)");
            Level::Info
        },
        JobState::Skipped(None) => {
            words.append("unknown");
            Level::Info
        },
        JobState::Errored(error) => {
            words.append("error: ");
            words.append(error.message.as_str());
            Level::Error
        },
        _ => {
            words.append("did not end");
            Level::Error
        },
    };
    assert(words@ == head + job_words(job@.state));
    LogLine::plain(level, words)
}

/// What a commit came to once its jobs had ended.
#[derive(Debug, PartialEq, Eq)]
pub struct CommitReport {
    /// Whether a job of the commit counts as a failure.
    pub failed: bool,
    /// The verdicts of the jobs that ended with one, in the order of the
    /// jobs.
    pub verdicts: Vec<Verdict>,
    /// The invocation that writes the summary, where one is written.
    pub summary: Option<Invocation>,
}

/// Whether a commit counts as a failure for the run: a job of it failed,
/// or its summary was to be written and could not be.
pub open spec fn commit_failed(jobs_failed: bool, summary_asked: bool, summary_stored: bool) -> bool {
    jobs_failed || (summary_asked && !summary_stored)
}

impl CommitReport {
    /// Whether the commit counts as a failure for the run, once the caller
    /// has tried to write the summary that the report asks for;
    /// `summary_stored` says whether that write succeeded, and is not
    /// looked at where the report asks for none.
    pub fn counts_as_failure(&self, summary_stored: bool) -> (r: bool)
        ensures
            r == commit_failed(self.failed, self.summary is Some, summary_stored),
    {
        self.failed || (self.summary.is_some() && !summary_stored)
    }
}

/// Whether the summary of a commit is written: not in a dry run, and only
/// when each job of the commit has ended with a verdict.
pub open spec fn summary_written(policy: Policy, jobs: Seq<JobView>) -> bool {
    !policy.dry_run && all_judged(jobs)
}

/// Closes a commit whose jobs are `jobs`. As long as a job has not ended
/// nothing is written and `None` is returned. Else the report says whether
/// a job failed and gives the verdicts; and where `summary_written` holds,
/// the summary of the verdicts becomes the stored summary of the commit,
/// and the report holds the invocation that writes it as the commit's
/// note.
pub fn update_git_notes(
    repo: &GitRepository,
    policy: &Policy,
    store: &mut ResultStore,
    commit: &GitSha,
    jobs: &Vec<Job>,
) -> (r: Option<CommitReport>)
    ensures
        final(store)@.verdicts == old(store)@.verdicts,
        r is Some == all_terminal(jobs.deep_view()),
        r is None ==> final(store)@ == old(store)@,
        r matches Some(report) ==> {
            &&& report.failed == any_failed(jobs.deep_view())
            &&& report.verdicts.deep_view() == verdicts_of(jobs.deep_view())
            &&& report.summary is Some == summary_written(*policy, jobs.deep_view())
            &&& summary_written(*policy, jobs.deep_view()) ==> {
                &&& report.summary->0@ == summary_note(
                    repo@,
                    commit@,
                    summary_text(verdicts_of(jobs.deep_view())),
                )
                &&& final(store)@.summaries == assigned(
                    old(store)@.summaries,
                    commit@,
                    summary_text(verdicts_of(jobs.deep_view())),
                )
            }
            &&& !summary_written(*policy, jobs.deep_view()) ==> final(store)@.summaries == old(
                store,
            )@.summaries
        },
{
    let ghost all = jobs.deep_view();
    let mut verdicts: Vec<Verdict> = Vec::new();
    let mut failed = false;
    let mut judged = true;
    let mut i: usize = 0;
    assert(all.subrange(0, 0) == Seq::<JobView>::empty());
    assert(verdicts.deep_view() == Seq::<VerdictView>::empty());
    while i < jobs.len()
        invariant
            all == jobs.deep_view(),
            i <= jobs.len(),
            all_terminal(all.subrange(0, i as int)),
            verdicts.deep_view() == verdicts_of(all.subrange(0, i as int)),
            failed == any_failed(all.subrange(0, i as int)),
            judged == all_judged(all.subrange(0, i as int)),
        decreases jobs.len() - i,
    {
        let ghost before = all.subrange(0, i as int);
        let ghost upto = all.subrange(0, i + 1);
        proof {
            assert(upto.drop_last() == before);
            assert(upto.last() == jobs[i as int]@);
            assert(forall|j: int| 0 <= j < i ==> upto[j] == before[j]);
        }
        if !jobs[i].is_terminal() {
            proof {
                assert(all[i as int] == jobs[i as int]@);
                assert(!terminal(all[i as int].state));
            }
            return None;
        }
        let ghost seen = verdicts.deep_view();
        if jobs[i].has_failed() {
            failed = true;
        }
        match jobs[i].verdict() {
            Some(verdict) => {
                verdicts.push(verdict.clone());
                assert(verdicts.deep_view() == seen.push(verdict@));
            },
            None => {
                judged = false;
            },
        }
        proof {
            let last = upto[i as int];
            assert(any_failed(upto) == (any_failed(before) || job_failed(last.state))) by {
                if any_failed(before) {
                    let w = choose|w: int| 0 <= w < before.len() && job_failed(before[w].state);
                    assert(job_failed(upto[w].state));
                }
                if job_failed(last.state) {
                    assert(job_failed(upto[i as int].state));
                }
                if any_failed(upto) {
                    let w = choose|w: int| 0 <= w < upto.len() && job_failed(upto[w].state);
                    if w < i {
                        assert(job_failed(before[w].state));
                    }
                }
            }
            assert(all_judged(upto) == (all_judged(before) && final_verdict(last.state) is Some))
                by {
                if all_judged(upto) {
                    assert(final_verdict(upto[i as int].state) is Some);
                    assert forall|j: int| 0 <= j < before.len() implies final_verdict(
                        #[trigger] before[j].state,
                    ) is Some by {
                        assert(final_verdict(upto[j].state) is Some);
                    }
                }
            }
            assert(all_terminal(upto)) by {
                assert forall|j: int| 0 <= j < upto.len() implies terminal(
                    #[trigger] upto[j].state,
                ) by {
                    if j < i {
                        assert(terminal(before[j].state));
                    }
                }
            }
        }
        i += 1;
    }
    assert(all.subrange(0, i as int) == all);
    if !policy.dry_run && judged {
        store.put_summary(commit.as_str(), &verdicts);
        let text = crate::store::summary(&verdicts);
        let note = repo.add_note("refs/notes/commits", commit.as_str(), text.as_str());
        Some(CommitReport { failed, verdicts, summary: Some(note) })
    } else {
        Some(CommitReport { failed, verdicts, summary: None })
    }
}

/// What a run is to do, once the request has been found sound.
#[derive(Debug, PartialEq, Eq)]
pub struct RunPlan {
    pub policy: Policy,
    /// The tests to run on each commit.
    pub tests: Vec<GitTestCommand>,
    /// Where the tests run.
    pub worktrees: WorktreeConfig,
    /// The revision expressions that name the commits.
    pub commits: Vec<String>,
    /// Whether more commits are read from the standard input.
    pub stdin: bool,
    /// Whether the commit that is checked out is tested, no other being
    /// named.
    pub head: bool,
}

/// Where the tests of `repo` run: in checkouts below `worktree`, or in the
/// primary working copy where no directory is given.
pub open spec fn worktrees_for(repo: Seq<char>, worktree: Option<Seq<char>>) -> WorktreeConfigView {
    match worktree {
        Some(path) => WorktreeConfigView::Linked { repo, path: joined(repo, path) },
        None => WorktreeConfigView::Main { repo },
    }
}

/// The plan holds the request as it was made, but for the tests.
pub open spec fn plan_follows(
    plan: RunPlan,
    repo: Seq<char>,
    policy: Policy,
    stdin: bool,
    commits: Seq<Seq<char>>,
    worktree: Option<Seq<char>>,
) -> bool {
    &&& plan.policy == policy
    &&& plan.worktrees@ == worktrees_for(repo, worktree)
    &&& plan.commits.deep_view() == commits
    &&& plan.stdin == stdin
    &&& plan.head == (commits.len() == 0 && !stdin)
}

/// The failure of a request that names a test and asks for all tests.
pub open spec fn both_requested() -> GitTestErrorView {
    GitTestErrorView {
        kind: ErrorKind::Conflict,
        message: "Cannot specify both --test and --all"@,
    }
}

/// The failure of a request that neither names a test nor asks for all.
pub open spec fn none_requested() -> GitTestErrorView {
    GitTestErrorView { kind: ErrorKind::Conflict, message: "Must specify either --test or --all"@ }
}

fn copied(texts: &Vec<String>) -> (r: Vec<String>)
    ensures
        r.deep_view() == texts.deep_view(),
{
    let mut out: Vec<String> = Vec::new();
    let mut i: usize = 0;
    while i < texts.len()
        invariant
            i <= texts.len(),
            out.len() == i,
            forall|j: int| 0 <= j < i ==> (#[trigger] out[j])@ == texts[j]@,
        decreases texts.len() - i,
    {
        out.push(texts[i].clone());
        i += 1;
    }
    assert(out.deep_view() =~= texts.deep_view());
    out
}

/// Checks a request to run tests and lays out the run. A request that
/// names a test and asks for all tests is refused, and so is one that does
/// neither, before anything else is looked at. A named test must be
/// defined in `config`; all tests are those that `config` lists, and the
/// request fails where they cannot be listed. The commit that is checked
/// out is tested where no commit is named and none is read from the
/// standard input.
pub fn cmd_run(
    repo: &GitRepository,
    config: &GitConfig,
    test: Option<&str>,
    all: bool,
    force: bool,
    forget: bool,
    retest: bool,
    keep_going: bool,
    dry_run: bool,
    stdin: bool,
    commits: &Vec<String>,
    worktree: Option<&str>,
) -> (r: Result<RunPlan, GitTestError>)
    ensures
        r matches Ok(plan) ==> plan_follows(
            plan,
            repo@,
            Policy { force, forget, retest, keep_going, dry_run },
            stdin,
            commits.deep_view(),
            worktree.deep_view(),
        ),
        match (test, all) {
            (Some(_), true) => r matches Err(e) && e@ == both_requested(),
            (None, false) => r matches Err(e) && e@ == none_requested(),
            (Some(name), false) => match lookup(config@, test_key(name@)) {
                Some(value) => r matches Ok(plan) && plan.tests.deep_view() == seq![
                    GitTestCommandView {
                        repo: repo@,
                        test_name: name@,
                        test_command: trimmed(value),
                    },
                ],
                None => r matches Err(e) && e@ == (GitTestErrorView {
                    kind: ErrorKind::Configuration,
                    message: undefined_test(name@),
                }),
            },
            (None, true) => (r is Ok <==> listable(repo@, config@)) && (match r {
                Ok(plan) => listed(repo@, config@) == Some(plan.tests.deep_view()),
                Err(e) => e@ == listing_failure(),
            }),
        },
{
    if test.is_some() && all {
        return Err(
            GitTestError::new(
                ErrorKind::Conflict,
                String::from_str("Cannot specify both --test and --all"),
            ),
        );
    }
    let tests: Vec<GitTestCommand> = if all {
        match repo.list_tests(config) {
            Ok(tests) => tests,
            Err(e) => {
                return Err(e);
            },
        }
    } else {
        match test {
            Some(name) => match repo.get_test_command(config, name) {
                Ok(found) => {
                    let mut tests: Vec<GitTestCommand> = Vec::new();
                    tests.push(found);
                    assert(tests.deep_view() == seq![found@]);
                    tests
                },
                Err(e) => {
                    return Err(e);
                },
            },
            None => {
                return Err(
                    GitTestError::new(
                        ErrorKind::Conflict,
                        String::from_str("Must specify either --test or --all"),
                    ),
                );
            },
        }
    };
    let worktrees = match worktree {
        Some(path) => repo.to_linked_worktree_config(path),
        None => repo.to_worktree_config(),
    };
    Ok(
        RunPlan {
            policy: Policy { force, forget, retest, keep_going, dry_run },
            tests,
            worktrees,
            commits: copied(commits),
            stdin,
            head: commits.len() == 0 && !stdin,
        },
    )
}

/// How far a run over its commits has come. The commits are taken one
/// after the other; the jobs of one commit may run side by side.
#[derive(Clone, Copy, Debug, PartialEq, Eq, Structural)]
pub struct Run {
    pub policy: Policy,
    /// How many commits the run was given.
    pub total: usize,
    /// How many of them are closed.
    pub closed: usize,
    /// Whether a failure has ended the run before its last commit.
    pub halted: bool,
    /// Whether a closed commit had a failure that counts.
    pub failed: bool,
}

/// The commit that a run takes next, by its place among the commits of the
/// run: none when the run has halted or has closed them all.
pub open spec fn next_commit(run: Run) -> Option<usize> {
    if !run.halted && run.closed < run.total {
        Some(run.closed)
    } else {
        None
    }
}

/// A run after the commit that it had taken was closed; `failed` says
/// whether a job of that commit counts as a failure. Such a failure counts
/// for the run unless the run is a dry one, and it halts the run unless
/// the run keeps going. A run that has no commit to take stays as it is.
pub open spec fn closed_commit(run: Run, failed: bool) -> Run {
    if next_commit(run) is Some {
        let counts = failed && !run.policy.dry_run;
        Run {
            closed: (run.closed + 1) as usize,
            halted: counts && !run.policy.keep_going,
            failed: run.failed || counts,
            ..run
        }
    } else {
        run
    }
}

/// The status with which the tool ends after a run: 1 where a failure
/// counted, else 0.
pub open spec fn exit_status(run: Run) -> int {
    if run.failed {
        1
    } else {
        0
    }
}

/// How many jobs of one commit may run side by side: one where they share
/// the primary working copy, else as many as were asked for and at least
/// one.
pub open spec fn jobs_at_once(config: WorktreeConfigView, requested: usize) -> usize {
    match config {
        WorktreeConfigView::Main { .. } => 1,
        WorktreeConfigView::Linked { .. } => if requested == 0 {
            1
        } else {
            requested
        },
    }
}

impl Run {
    /// A run over `total` commits of which none is closed.
    pub fn new(policy: Policy, total: usize) -> (r: Run)
        ensures
            r == (Run { policy, total, closed: 0, halted: false, failed: false }),
    {
        Run { policy, total, closed: 0, halted: false, failed: false }
    }

    /// The commit to take next, if the run goes on.
    pub fn next(&self) -> (r: Option<usize>)
        ensures
            r == next_commit(*self),
    {
        if !self.halted && self.closed < self.total {
            Some(self.closed)
        } else {
            None
        }
    }

    /// Closes the commit that was taken; `failed` says whether a job of it
    /// counts as a failure.
    pub fn close(&mut self, failed: bool)
        ensures
            *final(self) == closed_commit(*old(self), failed),
    {
        if !self.halted && self.closed < self.total {
            let counts = failed && !self.policy.dry_run;
            self.closed = self.closed + 1;
            self.halted = counts && !self.policy.keep_going;
            self.failed = self.failed || counts;
        }
    }

    /// The status with which the tool ends.
    pub fn exit_code(&self) -> (r: i32)
        ensures
            r == exit_status(*self),
    {
        if self.failed {
            1
        } else {
            0
        }
    }
}

/// How many jobs of one commit may run side by side.
pub fn concurrency(config: &WorktreeConfig, requested: usize) -> (r: usize)
    ensures
        r == jobs_at_once(config@, requested),
        r >= 1,
{
    if config.is_linked() {
        if requested == 0 {
            1
        } else {
            requested
        }
    } else {
        1
    }
}

} // verus!
