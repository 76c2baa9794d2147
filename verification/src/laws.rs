//! What holds of jobs, runs, the store and the configuration under every
//! policy and every course of events.

use vstd::prelude::*;
use crate::commands::run::{all_judged, closed_commit, jobs_for, next_commit, verdicts_of, Run};
use crate::config::{assigned, distinct_keys, keys, lookup, removed};
use crate::git::{
    deletion, lemma_linked_paths_differ, worktree_path, GitTestCommandView, WorktreeConfigView,
};
use crate::resolve::without_repeats;
use crate::scheduler::{
    final_verdict, job_step, terminal, ActionView, EventView, JobStateView, JobView, Policy, Step,
};
use crate::store::{
    found, lemma_found_recorded, lemma_recorded_one_each,
    one_verdict_each, outcome_of, recorded, Outcome, VerdictView,
};
use crate::text::{first_index_of, lemma_first_index_of, lemma_first_index_of_unique};

verus! {

/// The job, the store and the last action after the events `events` have
/// reached `job` one after the other.
pub open spec fn after_events(
    policy: Policy,
    verdicts: Seq<VerdictView>,
    job: JobView,
    events: Seq<EventView>,
) -> Step
    decreases events.len(),
{
    if events.len() == 0 {
        Step { job, verdicts, action: ActionView::Nothing }
    } else {
        let before = after_events(policy, verdicts, job, events.drop_last());
        job_step(policy, before.verdicts, before.job, events.last())
    }
}

/// The verdict of a test that ran and was recorded.
pub open spec fn verdict_after(job: JobView, exit: EventView) -> VerdictView
    recommends
        exit is Exited,
{
    VerdictView {
        test_name: job.test.test_name,
        tree: job.tree,
        outcome: outcome_of(exit->success),
        stdout: exit->stdout,
        stderr: exit->stderr,
        timestamp: exit->timestamp,
    }
}

/// A test that has run and whose verdict is written is not run again: a
/// later job for the same test on a commit with the same tree, be it the
/// same commit or another, ends at once with the very verdict that was
/// stored, asks for no action and leaves the store as it is. This holds
/// under every later policy without `force` and `forget` that does not
/// retest a failure.
pub proof fn law_stored_verdict_is_reused(
    policy: Policy,
    later: Policy,
    verdicts: Seq<VerdictView>,
    first: JobView,
    exit: EventView,
    second: JobView,
)
    requires
        first.state is Running,
        exit is Exited,
        second.state is Pending,
        second.test.test_name == first.test.test_name,
        second.tree == first.tree,
        !later.force,
        !later.forget,
        !(later.retest && !exit->success),
    ensures
        ({
            let ran = job_step(policy, verdicts, first, exit);
            let done = job_step(policy, ran.verdicts, ran.job, EventView::Recorded);
            let again = job_step(later, done.verdicts, second, EventView::Start);
            &&& done.job.state == JobStateView::Done(verdict_after(first, exit))
            &&& found(done.verdicts, first.test.test_name, first.tree) == Some(
                verdict_after(first, exit),
            )
            &&& again.job.state == JobStateView::Skipped(Some(verdict_after(first, exit)))
            &&& again.action is Nothing
            &&& again.verdicts == done.verdicts
        }),
{
    let verdict = verdict_after(first, exit);
    lemma_found_recorded(verdicts, verdict, first.test.test_name, first.tree);
}

/// Under `force`, and under `forget` as well, a job is run whatever the
/// store holds for it, and the verdict of that run is then the one that
/// the store holds.
pub proof fn law_force_runs_and_replaces(
    policy: Policy,
    verdicts: Seq<VerdictView>,
    job: JobView,
    exit: EventView,
)
    requires
        policy.force || policy.forget,
        !policy.dry_run,
        job.state is Pending,
        exit is Exited,
    ensures
        ({
            let started = job_step(policy, verdicts, job, EventView::Start);
            let made = job_step(policy, started.verdicts, started.job, EventView::Provisioned);
            let ran = job_step(policy, made.verdicts, made.job, exit);
            let done = job_step(policy, ran.verdicts, ran.job, EventView::Recorded);
            &&& started.job.state is Provisioning
            &&& started.action is Provision
            &&& made.action is Execute
            &&& ran.action is Record
            &&& done.job.state == JobStateView::Done(verdict_after(job, exit))
            &&& found(done.verdicts, job.test.test_name, job.tree) == Some(
                verdict_after(job, exit),
            )
        }),
{
    lemma_found_recorded(verdicts, verdict_after(job, exit), job.test.test_name, job.tree);
}

/// Under `retest` without `force` a job is run where the store holds no
/// verdict for it or holds a failure, and the verdict of that run is then
/// the one that the store holds; a stored pass stands unless `forget`
/// sets it aside.
pub proof fn law_retest_runs_failures_only(
    policy: Policy,
    verdicts: Seq<VerdictView>,
    job: JobView,
    exit: EventView,
)
    requires
        policy.retest,
        !policy.force,
        !policy.dry_run,
        job.state is Pending,
        exit is Exited,
    ensures
        ({
            let cached = found(verdicts, job.test.test_name, job.tree);
            let started = job_step(policy, verdicts, job, EventView::Start);
            let made = job_step(policy, started.verdicts, started.job, EventView::Provisioned);
            let ran = job_step(policy, made.verdicts, made.job, exit);
            let done = job_step(policy, ran.verdicts, ran.job, EventView::Recorded);
            &&& started.verdicts == verdicts
            &&& (cached is None || cached->0.outcome == Outcome::Fail) ==> {
                &&& started.job.state is Provisioning
                &&& started.action is Provision
                &&& made.action is Execute
                &&& done.job.state == JobStateView::Done(verdict_after(job, exit))
                &&& found(done.verdicts, job.test.test_name, job.tree) == Some(
                    verdict_after(job, exit),
                )
            }
            &&& (cached is Some && cached->0.outcome == Outcome::Pass && !policy.forget)
                ==> started.job.state == JobStateView::Skipped(cached) && started.action
                is Nothing
        }),
{
    lemma_found_recorded(verdicts, verdict_after(job, exit), job.test.test_name, job.tree);
}

/// Under `dry_run` no course of events makes a job ask for a checkout, a
/// run or a write, and the store stays as it was, whatever it holds.
pub proof fn law_dry_run_is_pure(
    policy: Policy,
    verdicts: Seq<VerdictView>,
    job: JobView,
    events: Seq<EventView>,
)
    requires
        policy.dry_run,
        job.state is Pending,
    ensures
        after_events(policy, verdicts, job, events).action is Nothing,
        after_events(policy, verdicts, job, events).verdicts == verdicts,
        after_events(policy, verdicts, job, events).job.state is Pending || after_events(
            policy,
            verdicts,
            job,
            events,
        ).job.state is Skipped,
    decreases events.len(),
{
    if events.len() > 0 {
        law_dry_run_is_pure(policy, verdicts, job, events.drop_last());
    }
}

/// A job that has ended stays as it is: no event changes it, the store or
/// asks for an action.
pub proof fn law_terminal_is_final(
    policy: Policy,
    verdicts: Seq<VerdictView>,
    job: JobView,
    event: EventView,
)
    requires
        terminal(job.state),
    ensures
        job_step(policy, verdicts, job, event) == (Step {
            job,
            verdicts,
            action: ActionView::Nothing,
        }),
{
}

/// The store changes only when a verdict is recorded, and a verdict is
/// recorded only for a test that ran: no job that did not reach `Done` has
/// written one.
pub proof fn law_store_changes_only_on_record(
    policy: Policy,
    verdicts: Seq<VerdictView>,
    job: JobView,
    event: EventView,
)
    ensures
        ({
            let step = job_step(policy, verdicts, job, event);
            step.verdicts != verdicts ==> step.job.state is Done && job.state is Recording
                && step.verdicts == recorded(verdicts, job.state->Recording_0)
        }),
{
}

/// No step of a job deletes a verdict. A test and tree for which the store
/// holds one have one after every step, under every policy.
pub proof fn law_no_step_deletes_a_verdict(
    policy: Policy,
    verdicts: Seq<VerdictView>,
    job: JobView,
    event: EventView,
    test: Seq<char>,
    tree: Seq<char>,
)
    requires
        found(verdicts, test, tree) is Some,
    ensures
        found(job_step(policy, verdicts, job, event).verdicts, test, tree) is Some,
{
    let step = job_step(policy, verdicts, job, event);
    if step.verdicts != verdicts {
        lemma_found_recorded(verdicts, job.state->Recording_0, test, tree);
    }
}

/// An interruption ends every job that has not ended. The working copy of
/// a job that was under way is removed, and no verdict is stored for it,
/// so that the job is still to be run the next time.
pub proof fn law_interruption_ends_a_job_without_a_verdict(
    policy: Policy,
    verdicts: Seq<VerdictView>,
    job: JobView,
)
    requires
        !terminal(job.state),
    ensures
        ({
            let step = job_step(policy, verdicts, job, EventView::Interrupted);
            &&& terminal(step.job.state)
            &&& final_verdict(step.job.state) is None
            &&& step.verdicts == verdicts
            &&& !(job.state is Pending) ==> step.job.state is Errored && step.action
                == ActionView::Cleanup(deletion(job.worktree))
            &&& job.state is Pending ==> step.action is Nothing
        }),
{
}

/// No step of a job leaves the store with two verdicts for one test and
/// tree: a verdict that is recorded takes the place of the one that was
/// there.
pub proof fn law_one_verdict_for_each_test_and_tree(
    policy: Policy,
    verdicts: Seq<VerdictView>,
    job: JobView,
    event: EventView,
)
    requires
        one_verdict_each(verdicts),
    ensures
        one_verdict_each(job_step(policy, verdicts, job, event).verdicts),
{
    let step = job_step(policy, verdicts, job, event);
    if step.verdicts != verdicts {
        lemma_recorded_one_each(verdicts, job.state->Recording_0);
    }
}

/// A run after the commits that it took were closed one after the other;
/// `failures` says of each whether it had a failure.
pub open spec fn after_commits(run: Run, failures: Seq<bool>) -> Run
    decreases failures.len(),
{
    if failures.len() == 0 {
        run
    } else {
        closed_commit(after_commits(run, failures.drop_last()), failures.last())
    }
}

/// A run that keeps going takes every commit, whatever fails: after any
/// number of its commits it has closed just those and takes the next one
/// as long as one is left.
pub proof fn law_keep_going_takes_every_commit(policy: Policy, total: usize, failures: Seq<bool>)
    requires
        policy.keep_going,
        failures.len() <= total,
    ensures
        ({
            let run = after_commits(
                Run { policy, total, closed: 0, halted: false, failed: false },
                failures,
            );
            &&& run.policy == policy
            &&& run.total == total
            &&& run.closed == failures.len()
            &&& !run.halted
            &&& next_commit(run) == if failures.len() < total {
                Some(failures.len() as usize)
            } else {
                None
            }
        }),
    decreases failures.len(),
{
    if failures.len() > 0 {
        law_keep_going_takes_every_commit(policy, total, failures.drop_last());
    }
}

/// A run that does not keep going, and is no dry run, stops with the first
/// commit that has a failure: it closes the commits up to that one and
/// takes none after it.
pub proof fn law_fail_fast_stops_at_first_failure(
    policy: Policy,
    total: usize,
    failures: Seq<bool>,
)
    requires
        !policy.keep_going,
        !policy.dry_run,
        failures.len() <= total,
    ensures
        ({
            let run = after_commits(
                Run { policy, total, closed: 0, halted: false, failed: false },
                failures,
            );
            let first = first_index_of(failures, true);
            &&& run.policy == policy
            &&& run.total == total
            &&& first < failures.len() ==> run.closed == first + 1 && run.halted && next_commit(
                run,
            ) is None && run.failed
            &&& first >= failures.len() ==> run.closed == failures.len() && !run.halted
                && !run.failed
        }),
    decreases failures.len(),
{
    lemma_first_index_of(failures, true);
    if failures.len() > 0 {
        let before = failures.drop_last();
        law_fail_fast_stops_at_first_failure(policy, total, before);
        lemma_first_index_of(before, true);
        let first = first_index_of(failures, true);
        let first_before = first_index_of(before, true);
        if first_before < before.len() {
            assert(before[first_before] == failures[first_before]);
            assert(forall|j: int| 0 <= j < first_before ==> before[j] == failures[j]);
            lemma_first_index_of_unique(failures, true, first_before);
        } else {
            assert(forall|j: int| 0 <= j < before.len() ==> before[j] == failures[j]);
            if failures.last() {
                lemma_first_index_of_unique(failures, true, before.len() as int);
            } else {
                lemma_first_index_of_unique(failures, true, failures.len() as int);
            }
        }
    }
}

/// No two names of `tests` are the same.
pub open spec fn distinct_names(tests: Seq<GitTestCommandView>) -> bool {
    forall|i: int, j: int|
        0 <= i < j < tests.len() ==> (#[trigger] tests[i]).test_name != (
        #[trigger] tests[j]).test_name
}

/// The jobs of one commit, each in a checkout of its own, never share a
/// directory: two jobs for tests of different names have different
/// working copies.
pub proof fn law_jobs_of_a_commit_have_their_own_paths(
    repo: Seq<char>,
    path: Seq<char>,
    commit: Seq<char>,
    tree: Seq<char>,
    tests: Seq<GitTestCommandView>,
    i: int,
    j: int,
)
    requires
        distinct_names(tests),
        0 <= i < j < tests.len(),
    ensures
        ({
            let jobs = jobs_for(WorktreeConfigView::Linked { repo, path }, commit, tree, tests);
            worktree_path(jobs[i].worktree) != worktree_path(jobs[j].worktree)
        }),
{
    assert(tests[i].test_name != tests[j].test_name);
    lemma_linked_paths_differ(repo, path, commit, tests[i].test_name, tests[j].test_name);
}

/// The store after each verdict of `new` was recorded in turn.
pub open spec fn recorded_all(verdicts: Seq<VerdictView>, new: Seq<VerdictView>) -> Seq<VerdictView>
    decreases new.len(),
{
    if new.len() == 0 {
        verdicts
    } else {
        recorded(recorded_all(verdicts, new.drop_last()), new.last())
    }
}

/// When the verdicts of jobs for different tests are recorded, in whatever
/// order the jobs end, the store then holds every one of them.
pub proof fn law_every_recorded_verdict_is_found(
    verdicts: Seq<VerdictView>,
    new: Seq<VerdictView>,
    i: int,
)
    requires
        one_verdict_each(new),
        0 <= i < new.len(),
    ensures
        found(recorded_all(verdicts, new), new[i].test_name, new[i].tree) == Some(new[i]),
    decreases new.len(),
{
    let before = recorded_all(verdicts, new.drop_last());
    if i == new.len() - 1 {
        lemma_found_recorded(before, new.last(), new[i].test_name, new[i].tree);
    } else {
        assert(new.drop_last()[i] == new[i]);
        assert(one_verdict_each(new.drop_last())) by {
            assert forall|a: int, b: int| 0 <= a < b < new.drop_last().len() implies (
            #[trigger] new.drop_last()[a]).test_name != (#[trigger] new.drop_last()[b]).test_name
                || new.drop_last()[a].tree != new.drop_last()[b].tree by {
                assert(new[a].test_name != new[b].test_name || new[a].tree != new[b].tree);
            }
        }
        law_every_recorded_verdict_is_found(verdicts, new.drop_last(), i);
        assert(new[i].test_name != new[new.len() - 1].test_name || new[i].tree != new[new.len()
            - 1].tree);
        lemma_found_recorded(before, new.last(), new[i].test_name, new[i].tree);
    }
}

/// When every job of a commit has ended with a verdict, the summary of the
/// commit has one entry for each job, and the entry of a job is that job's
/// verdict.
pub proof fn law_summary_has_an_entry_for_each_job(jobs: Seq<JobView>)
    requires
        all_judged(jobs),
    ensures
        verdicts_of(jobs).len() == jobs.len(),
        forall|i: int|
            0 <= i < jobs.len() ==> Some(#[trigger] verdicts_of(jobs)[i]) == final_verdict(
                jobs[i].state,
            ),
    decreases jobs.len(),
{
    if jobs.len() > 0 {
        let before = jobs.drop_last();
        assert(all_judged(before)) by {
            assert forall|i: int| 0 <= i < before.len() implies final_verdict(
                #[trigger] before[i].state,
            ) is Some by {
                assert(final_verdict(jobs[i].state) is Some);
            }
        }
        law_summary_has_an_entry_for_each_job(before);
        assert(final_verdict(jobs[jobs.len() - 1].state) is Some);
        assert forall|i: int| 0 <= i < jobs.len() implies Some(#[trigger] verdicts_of(jobs)[i])
            == final_verdict(jobs[i].state) by {
            if i < before.len() {
                assert(verdicts_of(jobs)[i] == verdicts_of(before)[i]);
                assert(before[i] == jobs[i]);
            }
        }
    }
}

/// A value that was assigned is the one found, and the other keys keep
/// what they had.
pub proof fn law_assigned_value_is_found(
    entries: Seq<(Seq<char>, Seq<char>)>,
    key: Seq<char>,
    value: Seq<char>,
    other: Seq<char>,
)
    ensures
        lookup(assigned(entries, key, value), key) == Some(value),
        other != key ==> lookup(assigned(entries, key, value), other) == lookup(entries, other),
{
    let ks = keys(entries);
    let after = assigned(entries, key, value);
    let ka = keys(after);
    lemma_first_index_of(ks, key);
    lemma_first_index_of(ks, other);
    let i = first_index_of(ks, key);
    assert forall|j: int| 0 <= j < i implies #[trigger] ka[j] != key by {
        assert(ks[j] != key);
    }
    assert(ka[i] == key);
    lemma_first_index_of_unique(ka, key, i);
    if other != key {
        let o = first_index_of(ks, other);
        if o < entries.len() {
            assert(ks[o] == other);
            assert(o != i) by {
                if i < entries.len() {
                    assert(ks[i] == key);
                }
            }
            assert forall|j: int| 0 <= j < o implies #[trigger] ka[j] != other by {
                assert(ks[j] != other);
            }
            assert(ka[o] == other);
            lemma_first_index_of_unique(ka, other, o);
        } else {
            assert forall|j: int| 0 <= j < ka.len() implies #[trigger] ka[j] != other by {
                if j < ks.len() {
                    assert(ks[j] != other);
                }
            }
            lemma_first_index_of_unique(ka, other, ka.len() as int);
        }
    }
}

/// A key that was removed is found no more where no key stood twice, and
/// the other keys keep what they had.
pub proof fn law_removed_key_is_gone(
    entries: Seq<(Seq<char>, Seq<char>)>,
    key: Seq<char>,
    other: Seq<char>,
)
    requires
        distinct_keys(entries),
    ensures
        lookup(removed(entries, key), key) is None,
        other != key ==> lookup(removed(entries, key), other) == lookup(entries, other),
{
    let ks = keys(entries);
    let after = removed(entries, key);
    let ka = keys(after);
    lemma_first_index_of(ks, key);
    lemma_first_index_of(ks, other);
    let i = first_index_of(ks, key);
    assert forall|j: int| 0 <= j < ka.len() implies #[trigger] ka[j] != key by {
        if i < entries.len() {
            let j0 = if j < i { j } else { j + 1 };
            assert(after[j] == entries[j0]);
            assert(ks[i] == key);
            assert(entries[i].0 == key);
            if j0 < i {
                assert(entries[j0].0 != entries[i].0);
            } else {
                assert(entries[i].0 != entries[j0].0);
            }
        } else {
            assert(ks[j] != key);
        }
    }
    lemma_first_index_of_unique(ka, key, ka.len() as int);
    if other != key && i < entries.len() {
        let o = first_index_of(ks, other);
        assert(ks[i] == key);
        if o < entries.len() {
            assert(ks[o] == other);
            let o1 = if o < i { o } else { o - 1 };
            assert forall|j: int| 0 <= j < o1 implies #[trigger] ka[j] != other by {
                let j0 = if j < i { j } else { j + 1 };
                assert(after[j] == entries[j0]);
                assert(ks[j0] != other);
            }
            assert(after[o1] == entries[o]);
            assert(ka[o1] == other);
            lemma_first_index_of_unique(ka, other, o1);
        } else {
            assert forall|j: int| 0 <= j < ka.len() implies #[trigger] ka[j] != other by {
                let j0 = if j < i { j } else { j + 1 };
                assert(after[j] == entries[j0]);
                assert(ks[j0] != other);
            }
            lemma_first_index_of_unique(ka, other, ka.len() as int);
        }
    }
}

/// What is left holds each commit of the list, and holds it once.
pub proof fn law_each_commit_is_taken_once(commits: Seq<Seq<char>>)
    ensures
        forall|c: Seq<char>| without_repeats(commits).contains(c) <==> commits.contains(c),
        forall|i: int, j: int|
            0 <= i < j < without_repeats(commits).len() ==> without_repeats(commits)[i]
                != without_repeats(commits)[j],
    decreases commits.len(),
{
    if commits.len() > 0 {
        let before_in = commits.drop_last();
        let before = without_repeats(before_in);
        let after = without_repeats(commits);
        law_each_commit_is_taken_once(before_in);
        assert forall|c: Seq<char>| after.contains(c) <==> commits.contains(c) by {
            if commits.contains(c) {
                let k = choose|k: int| 0 <= k < commits.len() && commits[k] == c;
                if k < before_in.len() {
                    assert(before_in[k] == c);
                    assert(before_in.contains(c));
                    let w = choose|w: int| 0 <= w < before.len() && before[w] == c;
                    assert(after[w] == c);
                } else {
                    if before.contains(c) {
                        let w = choose|w: int| 0 <= w < before.len() && before[w] == c;
                        assert(after[w] == c);
                    } else {
                        assert(after[after.len() - 1] == c);
                    }
                }
            }
            if after.contains(c) {
                let w = choose|w: int| 0 <= w < after.len() && after[w] == c;
                if w < before.len() {
                    assert(before[w] == c);
                    assert(before.contains(c));
                    assert(before_in.contains(c));
                    let k = choose|k: int| 0 <= k < before_in.len() && before_in[k] == c;
                    assert(commits[k] == c);
                } else {
                    assert(commits[commits.len() - 1] == c);
                }
            }
        }
        assert forall|i: int, j: int| 0 <= i < j < after.len() implies after[i] != after[j] by {
            if j < before.len() {
                assert(before[i] != before[j]);
            } else {
                assert(!before.contains(commits.last()));
                assert(before[i] == after[i]);
            }
        }
    }
}

} // verus!
