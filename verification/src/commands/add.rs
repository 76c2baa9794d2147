//! Defining a test.

use vstd::prelude::*;
use vstd::string::StringExecFns;
use crate::command::{git_invocation, Invocation, InvocationView};
use crate::config::{assigned, lookup, GitConfig};
use crate::git::{get_test_command, test_key, GitRepository};
use crate::log_util::{plain_line, Level, LogLine, LogLineView};
use crate::text::trimmed;

verus! {

/// One step of defining a test, for the caller to take in order; a step
/// that fails ends the command.
#[derive(Debug, PartialEq, Eq)]
pub enum AddStep {
    /// Log a message.
    Log(LogLine),
    /// Delete the stored results of the test.
    Forget { test: String },
    /// Run a program.
    Run(Invocation),
}

pub enum AddStepView {
    Log(LogLineView),
    Forget { test: Seq<char> },
    Run(InvocationView),
}

impl View for AddStep {
    type V = AddStepView;

    open spec fn view(&self) -> AddStepView {
        match self {
            AddStep::Log(line) => AddStepView::Log(line@),
            AddStep::Forget { test } => AddStepView::Forget { test: test@ },
            AddStep::Run(invocation) => AddStepView::Run(invocation@),
        }
    }
}

impl DeepView for AddStep {
    type V = AddStepView;

    open spec fn deep_view(&self) -> AddStepView {
        self@
    }
}

/// An informative message as a step.
pub open spec fn info(words: Seq<char>) -> AddStepView {
    AddStepView::Log(plain_line(Level::Info, words))
}

/// The warning that a test is overwritten without a word on its results.
pub open spec fn overwrite_warning(test: Seq<char>) -> Seq<char> {
    "Overwriting existing test '"@ + test
        + "'. Use --forget to delete stored results or --keep to preserve them."@
}

/// The informative message `words` as steps: one step where the caller
/// asked for more output, none where it did not.
pub open spec fn told(verbose: bool, words: Seq<char>) -> Seq<AddStepView> {
    if verbose {
        seq![info(words)]
    } else {
        seq![]
    }
}

/// The warning as steps, where a test that is defined is overwritten
/// without a word on its results.
pub open spec fn warned(test: Seq<char>, forget: bool, keep: bool) -> Seq<AddStepView> {
    if !forget && !keep {
        seq![AddStepView::Log(plain_line(Level::Warn, overwrite_warning(test)))]
    } else {
        seq![]
    }
}

/// The steps that announce the change of a test that is defined already
/// with the command `old`, and that deal with its stored results.
pub open spec fn redefine_steps(
    verbose: bool,
    old: Seq<char>,
    test: Seq<char>,
    forget: bool,
    keep: bool,
    command: Seq<char>,
) -> Seq<AddStepView> {
    let announced = told(verbose, "Existing command for test '"@ + test + "': "@ + old) + told(
        verbose,
        "New command for test '"@ + test + "': "@ + command,
    );
    let forgotten = if forget {
        seq![AddStepView::Forget { test }] + told(
            verbose,
            "Deleted stored results for test '"@ + test + "'"@,
        )
    } else {
        seq![]
    };
    announced + warned(test, forget, keep) + forgotten
}

/// The steps that define the test `test` of the repository `repo` with
/// the command `command`, where `existing` is the command that the test
/// has so far. The informative messages are among them exactly where
/// `verbosity` is above 0; the warning, the deletion of stored results
/// and the write are there whatever it is.
pub open spec fn add_steps(
    repo: Seq<char>,
    existing: Option<Seq<char>>,
    test: Seq<char>,
    forget: bool,
    keep: bool,
    command: Seq<char>,
    verbosity: i8,
) -> Seq<AddStepView> {
    let verbose = verbosity > 0;
    let before = match existing {
        Some(old) => redefine_steps(verbose, old, test, forget, keep, command),
        None => told(verbose, "Creating new test '"@ + test + "'"@),
    };
    before + seq![
        AddStepView::Run(git_invocation(repo, seq!["config"@, test_key(test), command])),
    ] + told(verbose, "Set test '"@ + test + "' with command: "@ + command)
}

/// The command that a change is reported to start from: the one that the
/// test has, or `<empty>` where it has none.
pub open spec fn changed_from(existing: Option<Seq<char>>) -> Seq<char> {
    match existing {
        Some(old) => old,
        None => "<empty>"@,
    }
}

/// The steps that define the test `test` of the repository `repo` with
/// the command `command` and report the change in one message after the
/// write, where `existing` is the command that the test has so far.
pub open spec fn changing_steps(
    repo: Seq<char>,
    existing: Option<Seq<char>>,
    test: Seq<char>,
    forget: bool,
    keep: bool,
    command: Seq<char>,
) -> Seq<AddStepView> {
    let warning = if existing is Some {
        warned(test, forget, keep)
    } else {
        seq![]
    };
    let forgotten = if forget {
        seq![AddStepView::Forget { test }]
    } else {
        seq![]
    };
    warning + forgotten + seq![
        AddStepView::Run(git_invocation(repo, seq!["config"@, test_key(test), command])),
        info(
            "Changing test '"@ + test + "' from '"@ + changed_from(existing) + "' to '"@ + command
                + "'"@,
        ),
    ]
}

/// The command that `config` holds for `test`, without the spaces around
/// it.
pub open spec fn existing_command(config: Seq<(Seq<char>, Seq<char>)>, test: Seq<char>) -> Option<
    Seq<char>,
> {
    match lookup(config, test_key(test)) {
        Some(value) => Some(trimmed(value)),
        None => None,
    }
}

fn tell(steps: &mut Vec<AddStep>, verbose: bool, words: String)
    ensures
        final(steps).deep_view() == old(steps).deep_view() + told(verbose, words@),
{
    let ghost before = steps.deep_view();
    if verbose {
        steps.push(AddStep::Log(LogLine::plain(Level::Info, words)));
        assert(steps.deep_view() == before + seq![info(words@)]);
    } else {
        assert(steps.deep_view() == before + Seq::<AddStepView>::empty());
    }
}

fn warn(steps: &mut Vec<AddStep>, test: &str, forget: bool, keep: bool)
    ensures
        final(steps).deep_view() == old(steps).deep_view() + warned(test@, forget, keep),
{
    let ghost before = steps.deep_view();
    if !forget && !keep {
        let words = about(
            "Overwriting existing test '",
            test,
            "'. Use --forget to delete stored results or --keep to preserve them.",
        );
        steps.push(AddStep::Log(LogLine::plain(Level::Warn, words)));
        assert(steps.deep_view() == before + seq![
            AddStepView::Log(plain_line(Level::Warn, overwrite_warning(test@))),
        ]);
    } else {
        assert(steps.deep_view() == before + Seq::<AddStepView>::empty());
    }
}

fn about(head: &str, test: &str, tail: &str) -> (r: String)
    ensures
        r@ == head@ + test@ + tail@,
{
    let mut words = String::from_str(head);
    words.append(test);
    words.append(tail);
    words
}

/// Defines the test `test` with the command `command` in `config`, and
/// gives the steps that do and report the same for the repository. The
/// stored results of a test that was defined already are deleted where
/// `forget` is set; where neither `forget` nor `keep` is set, a warning
/// says that they are kept without having been asked for. What is done is
/// told in informative messages only where `verbosity` is above 0. The
/// change to `config` is made at the call: a caller whose step fails reads
/// the configuration of the repository anew.
pub fn cmd_add(
    repo: &GitRepository,
    config: &mut GitConfig,
    test: &str,
    forget: bool,
    keep: bool,
    command: &str,
    verbosity: i8,
) -> (r: Vec<AddStep>)
    ensures
        r.deep_view() == add_steps(
            repo@,
            existing_command(old(config)@, test@),
            test@,
            forget,
            keep,
            command@,
            verbosity,
        ),
        final(config)@ == assigned(old(config)@, test_key(test@), command@),
{
    let verbose = verbosity > 0;
    let mut steps: Vec<AddStep> = Vec::new();
    assert(steps.deep_view() == Seq::<AddStepView>::empty());
    match get_test_command(config, test) {
        Ok(old_command) => {
            let mut existing = about("Existing command for test '", test, "': ");
            existing.append(old_command.as_str());
            tell(&mut steps, verbose, existing);
            let mut new = about("New command for test '", test, "': ");
            new.append(command);
            tell(&mut steps, verbose, new);
            warn(&mut steps, test, forget, keep);
            let ghost so_far = steps.deep_view();
            if forget {
                steps.push(AddStep::Forget { test: String::from_str(test) });
                assert(steps.deep_view() == so_far + seq![AddStepView::Forget { test: test@ }]);
                tell(&mut steps, verbose, about("Deleted stored results for test '", test, "'"));
            }
            assert(steps.deep_view() == redefine_steps(
                verbose,
                old_command@,
                test@,
                forget,
                keep,
                command@,
            ));
        },
        Err(_) => {
            tell(&mut steps, verbose, about("Creating new test '", test, "'"));
            assert(steps.deep_view() == told(verbose, "Creating new test '"@ + test@ + "'"@));
        },
    }
    let ghost before = steps.deep_view();
    let write = repo.set_test_command(config, test, command);
    steps.push(AddStep::Run(write));
    assert(steps.deep_view() == before + seq![
        AddStepView::Run(git_invocation(repo@, seq!["config"@, test_key(test@), command@])),
    ]);
    let mut done = about("Set test '", test, "' with command: ");
    done.append(command);
    tell(&mut steps, verbose, done);
    steps
}

/// Defines the test `test` with the command `command` in `config`, and
/// gives the steps that do the same for the repository and then report
/// the change in one message. The stored results are deleted where
/// `forget` is set; where a test that was defined already is overwritten
/// and neither `forget` nor `keep` is set, a warning comes first. The
/// change to `config` is made at the call, as in `cmd_add`.
pub fn cmd_add_changing(
    repo: &GitRepository,
    config: &mut GitConfig,
    test: &str,
    forget: bool,
    keep: bool,
    command: &str,
) -> (r: Vec<AddStep>)
    ensures
        r.deep_view() == changing_steps(
            repo@,
            existing_command(old(config)@, test@),
            test@,
            forget,
            keep,
            command@,
        ),
        final(config)@ == assigned(old(config)@, test_key(test@), command@),
{
    let mut steps: Vec<AddStep> = Vec::new();
    assert(steps.deep_view() == Seq::<AddStepView>::empty());
    let mut words = about("Changing test '", test, "' from '");
    match get_test_command(config, test) {
        Ok(old_command) => {
            warn(&mut steps, test, forget, keep);
            words.append(old_command.as_str());
        },
        Err(_) => {
            words.append("<empty>");
        },
    }
    words.append("' to '");
    words.append(command);
    words.append("'");
    let ghost warning = steps.deep_view();
    if forget {
        steps.push(AddStep::Forget { test: String::from_str(test) });
        assert(steps.deep_view() == warning + seq![AddStepView::Forget { test: test@ }]);
    } else {
        assert(steps.deep_view() == warning + Seq::<AddStepView>::empty());
    }
    let ghost before = steps.deep_view();
    let write = repo.set_test_command(config, test, command);
    steps.push(AddStep::Run(write));
    steps.push(AddStep::Log(LogLine::plain(Level::Info, words)));
    assert(steps.deep_view() == before + seq![
        AddStepView::Run(git_invocation(repo@, seq!["config"@, test_key(test@), command@])),
        info(
            "Changing test '"@ + test@ + "' from '"@ + changed_from(
                existing_command(old(config)@, test@),
            ) + "' to '"@ + command@ + "'"@,
        ),
    ]);
    steps
}

} // verus!
