//! Values that describe a repository, its tests and the checkouts in which
//! tests run, and the `git` invocations that act on them.

use vstd::prelude::*;
use vstd::string::StringExecFns;
use crate::command::{git, git_invocation, Invocation, Operation, OperationView, Output};
use crate::config::{assigned, lookup, GitConfig};
use crate::error::{modelled, ErrorKind, GitTestError, GitTestErrorView};
use crate::path::{absolute, is_absolute, join, joined};
use crate::pattern::{capture_named, named_capture, pattern_accepted};
use crate::text::{debug_list, debug_text, trim, trimmed};

verus! {

/// A commit or tree identifier, as `git` prints it.
#[derive(Debug, PartialEq, Eq, Hash)]
pub struct GitSha(String);

impl View for GitSha {
    type V = Seq<char>;

    closed spec fn view(&self) -> Seq<char> {
        self.0@
    }
}

impl Clone for GitSha {
    fn clone(&self) -> (r: Self)
        ensures
            r == *self,
    {
        GitSha(self.0.clone())
    }
}

impl GitSha {
    pub fn new(sha: String) -> (r: Self)
        ensures
            r@ == sha@,
    {
        GitSha(sha)
    }

    pub fn as_str(&self) -> (r: &str)
        ensures
            r@ == self@,
    {
        self.0.as_str()
    }

    /// Whether this is the identifier that `other` is.
    pub fn same(&self, other: &GitSha) -> (r: bool)
        ensures
            r == (self@ == other@),
    {
        self.0 == other.0
    }
}

impl DeepView for GitSha {
    type V = Seq<char>;

    open spec fn deep_view(&self) -> Seq<char> {
        self@
    }
}

/// A repository, known by the directory of its primary working copy.
#[derive(Debug, PartialEq, Eq)]
pub struct GitRepository {
    root: String,
}

impl View for GitRepository {
    type V = Seq<char>;

    closed spec fn view(&self) -> Seq<char> {
        self.root@
    }
}

impl Clone for GitRepository {
    fn clone(&self) -> (r: Self)
        ensures
            r == *self,
    {
        GitRepository { root: self.root.clone() }
    }
}

/// A named test of a repository and the shell command that runs it.
#[derive(Debug, PartialEq, Eq)]
pub struct GitTestCommand {
    pub repo: GitRepository,
    pub test_name: String,
    pub test_command: String,
}

pub struct GitTestCommandView {
    pub repo: Seq<char>,
    pub test_name: Seq<char>,
    pub test_command: Seq<char>,
}

impl View for GitTestCommand {
    type V = GitTestCommandView;

    open spec fn view(&self) -> GitTestCommandView {
        GitTestCommandView {
            repo: self.repo@,
            test_name: self.test_name@,
            test_command: self.test_command@,
        }
    }
}

impl DeepView for GitTestCommand {
    type V = GitTestCommandView;

    open spec fn deep_view(&self) -> GitTestCommandView {
        self@
    }
}

impl Clone for GitTestCommand {
    fn clone(&self) -> (r: Self)
        ensures
            r == *self,
    {
        GitTestCommand {
            repo: self.repo.clone(),
            test_name: self.test_name.clone(),
            test_command: self.test_command.clone(),
        }
    }
}

impl GitRepository {
    pub fn new(root: String) -> (r: Self)
        ensures
            r@ == root@,
    {
        GitRepository { root }
    }

    /// The directory of the primary working copy.
    pub fn root(&self) -> (r: &str)
        ensures
            r@ == self@,
    {
        self.root.as_str()
    }

    /// The test `test_name` of this repository, run by `test_command`.
    pub fn test_command(&self, test_name: String, test_command: String) -> (r: GitTestCommand)
        ensures
            r.repo == *self,
            r.test_name == test_name,
            r.test_command == test_command,
    {
        GitTestCommand { repo: self.clone(), test_name, test_command }
    }
}

/// The key under which the configuration holds the command of test `name`.
pub open spec fn test_key(name: Seq<char>) -> Seq<char> {
    "test."@ + name + ".command"@
}

/// The words that say that test `name` has no command.
pub open spec fn undefined_test(name: Seq<char>) -> Seq<char> {
    "Test '"@ + name + "' is not defined"@
}

/// The failure of a `git` whose arguments are shown as `shown`.
pub open spec fn git_failed(kind: ErrorKind, shown: Seq<char>) -> GitTestErrorView {
    GitTestErrorView { kind, message: "Git command failed: "@ + shown }
}

/// What a `git` that was given `args` and has ended means: its output
/// without the spaces around it where it succeeded; where it did not, a
/// failure of kind `kind` that shows the arguments as `{:?}` prints them.
pub open spec fn git_answer(
    success: bool,
    stdout: Seq<char>,
    args: Seq<Seq<char>>,
    kind: ErrorKind,
) -> Result<Seq<char>, GitTestErrorView> {
    if success {
        Ok(trimmed(stdout))
    } else {
        Err(git_failed(kind, debug_text(args)))
    }
}

/// The failure of kind `kind` of a `git` whose arguments are shown as
/// `shown`.
pub fn git_failure(kind: ErrorKind, shown: &str) -> (r: GitTestError)
    ensures
        r@ == git_failed(kind, shown@),
{
    let mut message = String::from_str("Git command failed: ");
    message.append(shown);
    GitTestError::new(kind, message)
}

/// The answer of a `git` that was given `args` and has ended with
/// `output`. A failure is reported as one of kind `kind`, which the caller
/// picks by what the invocation was for.
pub fn run_git_with_string(output: &Output, args: &Vec<String>, kind: ErrorKind) -> (r: Result<
    String,
    GitTestError,
>)
    ensures
        modelled(r) == git_answer(output.success, output.stdout@, args.deep_view(), kind),
{
    if output.success {
        Ok(trim(output.stdout.as_str()))
    } else {
        let shown = debug_list(args);
        Err(git_failure(kind, shown.as_str()))
    }
}

/// The repository that `git rev-parse --show-toplevel` named by `output`.
pub fn get_repo_root(output: &Output) -> (r: Result<GitRepository, GitTestError>)
    ensures
        match r {
            Ok(repo) => output.success && repo@ == trimmed(output.stdout@),
            Err(e) => !output.success && e@ == (GitTestErrorView {
                kind: ErrorKind::Configuration,
                message: "Not in a git repository"@,
            }),
        },
{
    if output.success {
        Ok(GitRepository::new(trim(output.stdout.as_str())))
    } else {
        Err(
            GitTestError::new(
                ErrorKind::Configuration,
                String::from_str("Not in a git repository"),
            ),
        )
    }
}

/// What `config` holds under `key`, without the spaces around it.
pub open spec fn config_value(config: Seq<(Seq<char>, Seq<char>)>, key: Seq<char>) -> Result<
    Seq<char>,
    GitTestErrorView,
> {
    match lookup(config, key) {
        Some(value) => Ok(trimmed(value)),
        None => Err(
            GitTestErrorView {
                kind: ErrorKind::Configuration,
                message: "Config value not found for key: "@ + key,
            },
        ),
    }
}

/// The value of `key` in `config`.
pub fn get_config_value(config: &GitConfig, key: &str) -> (r: Result<String, GitTestError>)
    ensures
        modelled(r) == config_value(config@, key@),
{
    match config.get(key) {
        Some(value) => Ok(trim(value)),
        None => {
            let mut message = String::from_str("Config value not found for key: ");
            message.append(key);
            Err(GitTestError::new(ErrorKind::Configuration, message))
        },
    }
}

/// The key of test `test`.
pub fn test_config_key(test: &str) -> (r: String)
    ensures
        r@ == test_key(test@),
{
    let mut key = String::from_str("test.");
    key.append(test);
    key.append(".command");
    key
}

/// The command of test `test` in `config`.
pub fn get_test_command(config: &GitConfig, test: &str) -> (r: Result<String, GitTestError>)
    ensures
        modelled(r) == config_value(config@, test_key(test@)),
{
    let key = test_config_key(test);
    get_config_value(config, key.as_str())
}

/// Makes `command` the command of test `test` in `config`.
pub fn set_test_command(config: &mut GitConfig, test: &str, command: &str)
    ensures
        final(config)@ == assigned(old(config)@, test_key(test@), command@),
{
    let key = test_config_key(test);
    config.set(key.as_str(), command);
}

/// The regular expression that the key of a test's command matches; its
/// group `name` is the test's name.
pub open spec fn test_key_pattern() -> Seq<char> {
    "^test\\.(?P<name>.*)\\.command$"@
}

/// The test that an entry defines, given what the key pattern captured in
/// the entry's key: none where the key did not match, a failure where it
/// matched without a name.
pub open spec fn listed_entry(
    repo: Seq<char>,
    captured: Option<Option<Seq<char>>>,
    command: Seq<char>,
) -> Result<Option<GitTestCommandView>, GitTestErrorView> {
    match captured {
        None => Ok(None),
        Some(None) => Err(
            GitTestErrorView { kind: ErrorKind::Configuration, message: name_missing() },
        ),
        Some(Some(name)) => Ok(
            Some(GitTestCommandView { repo, test_name: name, test_command: command }),
        ),
    }
}

/// The tests that `entries` define, in their order, or `None` where one of
/// the keys matched the key pattern without a name.
pub open spec fn listed(repo: Seq<char>, entries: Seq<(Seq<char>, Seq<char>)>) -> Option<
    Seq<GitTestCommandView>,
>
    decreases entries.len(),
{
    if entries.len() == 0 {
        Some(seq![])
    } else {
        let last = entries.last();
        match listed(repo, entries.drop_last()) {
            None => None,
            Some(before) => match listed_entry(
                repo,
                named_capture(test_key_pattern(), "name"@, last.0),
                last.1,
            ) {
                Err(_) => None,
                Ok(None) => Some(before),
                Ok(Some(test)) => Some(before.push(test)),
            },
        }
    }
}

/// Whether the tests of `entries` can be listed: the key pattern is
/// accepted, and no key matches it without a name.
pub open spec fn listable(repo: Seq<char>, entries: Seq<(Seq<char>, Seq<char>)>) -> bool {
    pattern_accepted(test_key_pattern()) && listed(repo, entries) is Some
}

/// The failure of listing tests that cannot be listed: the refused pattern
/// comes before the key without a name.
pub open spec fn listing_failure() -> GitTestErrorView {
    GitTestErrorView {
        kind: ErrorKind::Configuration,
        message: if !pattern_accepted(test_key_pattern()) {
            pattern_refused()
        } else {
            name_missing()
        },
    }
}

/// The words of the failure of a key pattern that is refused.
pub open spec fn pattern_refused() -> Seq<char> {
    "Failed to compile test config regex"@
}

/// The words of the failure of a key that matched without a name.
pub open spec fn name_missing() -> Seq<char> {
    "Failed to parse git config output"@
}

proof fn lemma_listed_none_stays(repo: Seq<char>, entries: Seq<(Seq<char>, Seq<char>)>, k: int)
    requires
        0 <= k <= entries.len(),
        listed(repo, entries.subrange(0, k)) is None,
    ensures
        listed(repo, entries) is None,
    decreases entries.len() - k,
{
    if k == entries.len() {
        assert(entries.subrange(0, k) == entries);
    } else {
        assert(entries.subrange(0, k + 1).drop_last() == entries.subrange(0, k));
        lemma_listed_none_stays(repo, entries, k + 1);
    }
}

impl GitRepository {
    /// `git` acting on this repository with `args`.
    pub fn run_git(&self, args: Vec<String>) -> (r: Invocation)
        ensures
            r@ == git_invocation(self@, args.deep_view()),
    {
        git(self.root.as_str(), args)
    }

    /// The invocation that asks `git` which repository `dir` lies in.
    pub fn get_repo_root(dir: &str) -> (r: Invocation)
        ensures
            r@ == git_invocation(dir@, seq!["rev-parse"@, "--show-toplevel"@]),
    {
        let mut args: Vec<String> = Vec::new();
        args.push(String::from_str("rev-parse"));
        args.push(String::from_str("--show-toplevel"));
        assert(args.deep_view() == seq!["rev-parse"@, "--show-toplevel"@]);
        git(dir, args)
    }

    /// The invocation that prints the whole configuration, each entry
    /// ended by a NUL character, for `GitConfig::load`.
    pub fn read_config(&self) -> (r: Invocation)
        ensures
            r@ == git_invocation(self@, seq!["config"@, "--null"@, "--list"@]),
    {
        let mut args: Vec<String> = Vec::new();
        args.push(String::from_str("config"));
        args.push(String::from_str("--null"));
        args.push(String::from_str("--list"));
        assert(args.deep_view() == seq!["config"@, "--null"@, "--list"@]);
        self.run_git(args)
    }

    /// The value of `key` in `config`.
    pub fn get_config_value(&self, config: &GitConfig, key: &str) -> (r: Result<
        String,
        GitTestError,
    >)
        ensures
            modelled(r) == config_value(config@, key@),
    {
        get_config_value(config, key)
    }

    /// Puts `value` under `key` in `config`, and gives the invocation that
    /// does the same in the repository.
    pub fn set_config_value(&self, config: &mut GitConfig, key: &str, value: &str) -> (r:
        Invocation)
        ensures
            final(config)@ == assigned(old(config)@, key@, value@),
            r@ == git_invocation(self@, seq!["config"@, key@, value@]),
    {
        config.set(key, value);
        let mut args: Vec<String> = Vec::new();
        args.push(String::from_str("config"));
        args.push(String::from_str(key));
        args.push(String::from_str(value));
        assert(args.deep_view() == seq!["config"@, key@, value@]);
        self.run_git(args)
    }

    /// The test `test_name` as `config` defines it.
    pub fn get_test_command(&self, config: &GitConfig, test_name: &str) -> (r: Result<
        GitTestCommand,
        GitTestError,
    >)
        ensures
            match lookup(config@, test_key(test_name@)) {
                Some(value) => r matches Ok(test) && test@ == (GitTestCommandView {
                    repo: self@,
                    test_name: test_name@,
                    test_command: trimmed(value),
                }),
                None => r matches Err(e) && e@ == (GitTestErrorView {
                    kind: ErrorKind::Configuration,
                    message: undefined_test(test_name@),
                }),
            },
    {
        match get_test_command(config, test_name) {
            Ok(command) => Ok(self.test_command(String::from_str(test_name), command)),
            Err(_) => {
                let mut message = String::from_str("Test '");
                message.append(test_name);
                message.append("' is not defined");
                Err(GitTestError::new(ErrorKind::Configuration, message))
            },
        }
    }

    /// Makes `command` the command of test `test` in `config`, and gives the
    /// invocation that does the same in the repository.
    pub fn set_test_command(&self, config: &mut GitConfig, test: &str, command: &str) -> (r:
        Invocation)
        ensures
            final(config)@ == assigned(old(config)@, test_key(test@), command@),
            r@ == git_invocation(self@, seq!["config"@, test_key(test@), command@]),
    {
        let key = test_config_key(test);
        self.set_config_value(config, key.as_str(), command)
    }

    /// The test that one entry defines, from what the key pattern captured
    /// in its key.
    pub fn listed_test(&self, captured: Option<Option<String>>, command: &str) -> (r: Result<
        Option<GitTestCommand>,
        GitTestError,
    >)
        ensures
            modelled(r) == listed_entry(self@, captured.deep_view(), command@),
    {
        match captured {
            None => Ok(None),
            Some(None) => Err(
                GitTestError::new(
                    ErrorKind::Configuration,
                    String::from_str("Failed to parse git config output"),
                ),
            ),
            Some(Some(name)) => Ok(Some(self.test_command(name, String::from_str(command)))),
        }
    }

    /// The tests that `config` defines, in the order of their keys. Fails
    /// where the key pattern is refused, which is found out before any key
    /// is looked at, or where a key matches it without a name.
    pub fn list_tests(&self, config: &GitConfig) -> (r: Result<Vec<GitTestCommand>, GitTestError>)
        ensures
            r is Ok <==> listable(self@, config@),
            match r {
                Ok(tests) => listed(self@, config@) == Some(tests.deep_view()),
                Err(e) => e@ == listing_failure(),
            },
    {
        if capture_named("^test\\.(?P<name>.*)\\.command$", "name", "").is_err() {
            return Err(
                GitTestError::new(
                    ErrorKind::Configuration,
                    String::from_str("Failed to compile test config regex"),
                ),
            );
        }
        let mut tests: Vec<GitTestCommand> = Vec::new();
        let mut i: usize = 0;
        assert(config@.subrange(0, 0) == Seq::<(Seq<char>, Seq<char>)>::empty());
        assert(tests.deep_view() == Seq::<GitTestCommandView>::empty());
        while i < config.len()
            invariant
                i <= config@.len(),
                pattern_accepted(test_key_pattern()),
                listed(self@, config@.subrange(0, i as int)) == Some(tests.deep_view()),
            decreases config@.len() - i,
        {
            let entry = config.entry(i);
            let ghost upto = config@.subrange(0, i + 1);
            let ghost before = tests.deep_view();
            proof {
                assert(upto.drop_last() == config@.subrange(0, i as int));
                assert(upto.last() == entry@);
            }
            let captured = match capture_named(
                "^test\\.(?P<name>.*)\\.command$",
                "name",
                entry.key.as_str(),
            ) {
                Ok(captured) => captured,
                Err(_) => {
                    return Err(
                        GitTestError::new(
                            ErrorKind::Configuration,
                            String::from_str("Failed to compile test config regex"),
                        ),
                    );
                },
            };
            match self.listed_test(captured, entry.value.as_str()) {
                Err(e) => {
                    proof {
                        lemma_listed_none_stays(self@, config@, i + 1);
                    }
                    return Err(e);
                },
                Ok(None) => {},
                Ok(Some(test)) => {
                    tests.push(test);
                    assert(tests.deep_view() == before.push(test@));
                },
            }
            i += 1;
        }
        assert(config@.subrange(0, i as int) == config@);
        Ok(tests)
    }

    /// The invocation that prints the commit that is checked out.
    pub fn get_head_commit(&self) -> (r: Invocation)
        ensures
            r@ == git_invocation(self@, seq!["rev-parse"@, "HEAD"@]),
    {
        let mut args: Vec<String> = Vec::new();
        args.push(String::from_str("rev-parse"));
        args.push(String::from_str("HEAD"));
        assert(args.deep_view() == seq!["rev-parse"@, "HEAD"@]);
        self.run_git(args)
    }

    /// The invocation that prints the note of `object` under the notes
    /// reference `ref_name`; it fails where there is none.
    pub fn show_note(&self, ref_name: &str, object: &str) -> (r: Invocation)
        ensures
            r@ == git_invocation(self@, seq!["notes"@, "--ref"@, ref_name@, "show"@, object@]),
    {
        let mut args: Vec<String> = Vec::new();
        args.push(String::from_str("notes"));
        args.push(String::from_str("--ref"));
        args.push(String::from_str(ref_name));
        args.push(String::from_str("show"));
        args.push(String::from_str(object));
        assert(args.deep_view() == seq!["notes"@, "--ref"@, ref_name@, "show"@, object@]);
        self.run_git(args)
    }

    /// The invocation that writes `content` as the note of `object` under
    /// the notes reference `ref_name`, in place of a note that is there.
    pub fn add_note(&self, ref_name: &str, object: &str, content: &str) -> (r: Invocation)
        ensures
            r@ == git_invocation(
                self@,
                seq![
                    "notes"@,
                    "--ref"@,
                    ref_name@,
                    "add"@,
                    "-f"@,
                    "-m"@,
                    content@,
                    object@,
                ],
            ),
    {
        let mut args: Vec<String> = Vec::new();
        args.push(String::from_str("notes"));
        args.push(String::from_str("--ref"));
        args.push(String::from_str(ref_name));
        args.push(String::from_str("add"));
        args.push(String::from_str("-f"));
        args.push(String::from_str("-m"));
        args.push(String::from_str(content));
        args.push(String::from_str(object));
        assert(args.deep_view() == seq![
            "notes"@,
            "--ref"@,
            ref_name@,
            "add"@,
            "-f"@,
            "-m"@,
            content@,
            object@,
        ]);
        self.run_git(args)
    }
}

/// Where tests run: in the primary working copy itself, or each in a
/// checkout of its own below `path`.
#[derive(Debug, PartialEq, Eq)]
pub enum WorktreeConfig {
    Main(GitRepository),
    Linked { repo: GitRepository, path: String },
}

pub enum WorktreeConfigView {
    Main { repo: Seq<char> },
    Linked { repo: Seq<char>, path: Seq<char> },
}

impl View for WorktreeConfig {
    type V = WorktreeConfigView;

    open spec fn view(&self) -> WorktreeConfigView {
        match self {
            WorktreeConfig::Main(repo) => WorktreeConfigView::Main { repo: repo@ },
            WorktreeConfig::Linked { repo, path } => WorktreeConfigView::Linked {
                repo: repo@,
                path: path@,
            },
        }
    }
}

impl Clone for WorktreeConfig {
    fn clone(&self) -> (r: Self)
        ensures
            r == *self,
    {
        match self {
            WorktreeConfig::Main(repo) => WorktreeConfig::Main(repo.clone()),
            WorktreeConfig::Linked { repo, path } => WorktreeConfig::Linked {
                repo: repo.clone(),
                path: path.clone(),
            },
        }
    }
}

/// The working copy in which one test runs against one commit.
#[derive(Debug, PartialEq, Eq)]
pub enum Worktree {
    Main(GitRepository),
    Linked { repo: GitRepository, path_prefix: String, sha: GitSha, test_name: String },
}

pub enum WorktreeView {
    Main { repo: Seq<char> },
    Linked { repo: Seq<char>, path_prefix: Seq<char>, sha: Seq<char>, test_name: Seq<char> },
}

impl View for Worktree {
    type V = WorktreeView;

    open spec fn view(&self) -> WorktreeView {
        match self {
            Worktree::Main(repo) => WorktreeView::Main { repo: repo@ },
            Worktree::Linked { repo, path_prefix, sha, test_name } => WorktreeView::Linked {
                repo: repo@,
                path_prefix: path_prefix@,
                sha: sha@,
                test_name: test_name@,
            },
        }
    }
}

impl Clone for Worktree {
    fn clone(&self) -> (r: Self)
        ensures
            r == *self,
    {
        match self {
            Worktree::Main(repo) => Worktree::Main(repo.clone()),
            Worktree::Linked { repo, path_prefix, sha, test_name } => Worktree::Linked {
                repo: repo.clone(),
                path_prefix: path_prefix.clone(),
                sha: sha.clone(),
                test_name: test_name.clone(),
            },
        }
    }
}

/// The working copy that `config` gives to the test `test_name` on `sha`.
pub open spec fn worktree_for(
    config: WorktreeConfigView,
    sha: Seq<char>,
    test_name: Seq<char>,
) -> WorktreeView {
    match config {
        WorktreeConfigView::Main { repo } => WorktreeView::Main { repo },
        WorktreeConfigView::Linked { repo, path } => WorktreeView::Linked {
            repo,
            path_prefix: path,
            sha,
            test_name,
        },
    }
}

/// The directory of a working copy: the repository's own, or
/// `path_prefix/sha/test_name`.
pub open spec fn worktree_path(worktree: WorktreeView) -> Seq<char> {
    match worktree {
        WorktreeView::Main { repo } => repo,
        WorktreeView::Linked { repo, path_prefix, sha, test_name } => joined(
            path_prefix,
            sha + seq!['/'] + test_name,
        ),
    }
}

/// The steps that make a working copy: none for the primary one; for a
/// checkout of its own the directory, then a detached checkout of the
/// commit in it.
pub open spec fn creation(worktree: WorktreeView) -> Seq<OperationView> {
    match worktree {
        WorktreeView::Main { repo } => seq![],
        WorktreeView::Linked { repo, path_prefix, sha, test_name } => seq![
            OperationView::CreateDirAll { path: worktree_path(worktree) },
            OperationView::Run(
                git_invocation(
                    repo,
                    seq!["worktree"@, "add"@, "--detach"@, worktree_path(worktree), sha],
                ),
            ),
        ],
    }
}

/// The steps that remove a working copy: none for the primary one, a
/// forced removal for a checkout of its own.
pub open spec fn deletion(worktree: WorktreeView) -> Seq<OperationView> {
    match worktree {
        WorktreeView::Main { repo } => seq![],
        WorktreeView::Linked { repo, path_prefix, sha, test_name } => seq![
            OperationView::Run(
                git_invocation(
                    repo,
                    seq!["worktree"@, "remove"@, "--force"@, worktree_path(worktree)],
                ),
            ),
        ],
    }
}

impl WorktreeConfig {
    /// The working copy for the test `test_name` on the commit `sha`.
    pub fn to_worktree(&self, sha: GitSha, test_name: &str) -> (r: Worktree)
        ensures
            r@ == worktree_for(self@, sha@, test_name@),
    {
        match self {
            WorktreeConfig::Main(repo) => Worktree::Main(repo.clone()),
            WorktreeConfig::Linked { repo, path } => Worktree::Linked {
                repo: repo.clone(),
                path_prefix: path.clone(),
                sha,
                test_name: String::from_str(test_name),
            },
        }
    }

    /// Whether each test gets a checkout of its own.
    pub fn is_linked(&self) -> (r: bool)
        ensures
            r == (self@ is Linked),
    {
        match self {
            WorktreeConfig::Main(_) => false,
            WorktreeConfig::Linked { .. } => true,
        }
    }
}

impl Worktree {
    /// The directory of the working copy.
    pub fn get_path(&self) -> (r: String)
        ensures
            r@ == worktree_path(self@),
    {
        match self {
            Worktree::Main(repo) => String::from_str(repo.root()),
            Worktree::Linked { repo, path_prefix, sha, test_name } => {
                let mut below = String::from_str(sha.as_str());
                proof {
                    reveal_strlit("/");
                    assert("/"@ == seq!['/']);
                }
                below.append("/");
                below.append(test_name.as_str());
                join(path_prefix.as_str(), below.as_str())
            },
        }
    }

    /// The steps that make the working copy.
    pub fn create(&self) -> (r: Vec<Operation>)
        ensures
            r.deep_view() == creation(self@),
    {
        let mut steps: Vec<Operation> = Vec::new();
        match self {
            Worktree::Main(_) => {
                assert(steps.deep_view() == Seq::<OperationView>::empty());
            },
            Worktree::Linked { repo, path_prefix, sha, test_name } => {
                let path = self.get_path();
                let mut args: Vec<String> = Vec::new();
                args.push(String::from_str("worktree"));
                args.push(String::from_str("add"));
                args.push(String::from_str("--detach"));
                args.push(path.clone());
                args.push(String::from_str(sha.as_str()));
                assert(args.deep_view() == seq![
                    "worktree"@,
                    "add"@,
                    "--detach"@,
                    worktree_path(self@),
                    sha@,
                ]);
                let add = repo.run_git(args);
                steps.push(Operation::CreateDirAll { path });
                steps.push(Operation::Run(add));
                assert(steps.deep_view() == creation(self@));
            },
        }
        steps
    }

    /// The steps that remove the working copy.
    pub fn delete(&self) -> (r: Vec<Operation>)
        ensures
            r.deep_view() == deletion(self@),
    {
        let mut steps: Vec<Operation> = Vec::new();
        match self {
            Worktree::Main(_) => {
                assert(steps.deep_view() == Seq::<OperationView>::empty());
            },
            Worktree::Linked { repo, path_prefix, sha, test_name } => {
                let path = self.get_path();
                let mut args: Vec<String> = Vec::new();
                args.push(String::from_str("worktree"));
                args.push(String::from_str("remove"));
                args.push(String::from_str("--force"));
                args.push(path);
                assert(args.deep_view() == seq![
                    "worktree"@,
                    "remove"@,
                    "--force"@,
                    worktree_path(self@),
                ]);
                steps.push(Operation::Run(repo.run_git(args)));
                assert(steps.deep_view() == deletion(self@));
            },
        }
        steps
    }
}

/// How a repository says where its tests run.
pub trait GitRepositoryWorktreeExt {
    spec fn repo_root(&self) -> Seq<char>;

    /// Tests run in the primary working copy.
    fn to_worktree_config(&self) -> (r: WorktreeConfig)
        ensures
            r@ == (WorktreeConfigView::Main { repo: self.repo_root() }),
    ;

    /// Tests run in checkouts below `path`, which is taken from the
    /// repository's directory unless it is absolute.
    fn to_linked_worktree_config(&self, path: &str) -> (r: WorktreeConfig)
        ensures
            r@ == (WorktreeConfigView::Linked {
                repo: self.repo_root(),
                path: joined(self.repo_root(), path@),
            }),
    ;
}

impl GitRepositoryWorktreeExt for GitRepository {
    open spec fn repo_root(&self) -> Seq<char> {
        self@
    }

    fn to_worktree_config(&self) -> (r: WorktreeConfig) {
        WorktreeConfig::Main(self.clone())
    }

    fn to_linked_worktree_config(&self, path: &str) -> (r: WorktreeConfig) {
        let absolute_path = if is_absolute(path) {
            String::from_str(path)
        } else {
            join(self.root(), path)
        };
        WorktreeConfig::Linked { repo: self.clone(), path: absolute_path }
    }
}

/// Two tests on one commit get two directories, whatever the prefix.
pub proof fn lemma_linked_paths_differ(
    repo: Seq<char>,
    path_prefix: Seq<char>,
    sha: Seq<char>,
    first: Seq<char>,
    second: Seq<char>,
)
    requires
        first != second,
    ensures
        worktree_path(WorktreeView::Linked { repo, path_prefix, sha, test_name: first })
            != worktree_path(WorktreeView::Linked { repo, path_prefix, sha, test_name: second }),
{
    if joined(path_prefix, sha + seq!['/'] + first) == joined(
        path_prefix,
        sha + seq!['/'] + second,
    ) {
        crate::path::lemma_joined_injective_in_last(path_prefix, sha, first, second);
    }
}

} // verus!
