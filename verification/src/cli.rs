//! The requests of the command line, as plain values.

use vstd::prelude::*;
use crate::commands::add::{changing_steps, cmd_add_changing, existing_command, AddStep};
use crate::config::{assigned, GitConfig};
use crate::git::{test_key, GitRepository};
use crate::log_util::{
    colours_shown, init_logging, level_for, verbosity, verbosity_of, ColorChoice, LogSetup,
};

verus! {

/// Everything that one call of the tool asks for.
#[derive(Debug, PartialEq, Eq)]
pub struct Cli {
    pub command: Commands,
    /// How often more output was asked for.
    pub verbose: u8,
    /// How often less output was asked for.
    pub quiet: u8,
    pub color: ColorChoice,
}

/// The commands of the tool.
#[derive(Debug, PartialEq, Eq)]
pub enum Commands {
    Add(AddArgs),
    Run(RunArgs),
    Range(RunArgs),
    Results(ResultsArgs),
    ForgetResults(ForgetResultsArgs),
    List,
    Remove(RemoveArgs),
}

/// Define a test.
#[derive(Debug, PartialEq, Eq)]
pub struct AddArgs {
    pub test: String,
    pub forget: bool,
    pub keep: bool,
    pub command: String,
}

/// Run tests against commits.
#[derive(Debug, PartialEq, Eq)]
pub struct RunArgs {
    pub test: Option<String>,
    pub all: bool,
    pub force: bool,
    pub forget: bool,
    pub retest: bool,
    pub keep_going: bool,
    pub dry_run: bool,
    pub stdin: bool,
    pub worktree: Option<String>,
    pub commits: Vec<String>,
}

/// Show the stored results of a test.
#[derive(Debug, PartialEq, Eq)]
pub struct ResultsArgs {
    pub test: String,
    pub stdin: bool,
    pub commits: Vec<String>,
}

/// Forget the stored results of a test.
#[derive(Debug, PartialEq, Eq)]
pub struct ForgetResultsArgs {
    pub test: String,
}

/// Remove a test.
#[derive(Debug, PartialEq, Eq)]
pub struct RemoveArgs {
    pub test: String,
}

impl Cli {
    /// The setup of the logger that the call asks for; `terminal` says
    /// whether the output goes to a terminal.
    pub fn log_setup(&self, terminal: bool) -> (r: LogSetup)
        ensures
            r == (LogSetup {
                level: level_for(verbosity_of(self.verbose, self.quiet)),
                detailed: verbosity_of(self.verbose, self.quiet) >= 3,
                colorize: colours_shown(self.color, terminal),
            }),
    {
        init_logging(verbosity(self.verbose, self.quiet), self.color, terminal)
    }
}

impl AddArgs {
    /// The steps of the request, as `cmd_add_changing` lays them out.
    pub fn steps(&self, repo: &GitRepository, config: &mut GitConfig) -> (r: Vec<AddStep>)
        ensures
            r.deep_view() == changing_steps(
                repo@,
                existing_command(old(config)@, self.test@),
                self.test@,
                self.forget,
                self.keep,
                self.command@,
            ),
            final(config)@ == assigned(old(config)@, test_key(self.test@), self.command@),
    {
        cmd_add_changing(
            repo,
            config,
            self.test.as_str(),
            self.forget,
            self.keep,
            self.command.as_str(),
        )
    }
}

} // verus!
