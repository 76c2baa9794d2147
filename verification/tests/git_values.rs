use git_test::command::{git, git_arguments, shell, Invocation, Operation, Output};
use git_test::config::{parse_config, GitConfig};
use git_test::error::ErrorKind;
use git_test::git::{
    get_config_value, get_repo_root, get_test_command, git_failure, run_git_with_string,
    set_test_command,
    test_config_key, GitRepository, GitRepositoryWorktreeExt, GitSha, Worktree, WorktreeConfig,
};
use git_test::path::{is_absolute, join};
use git_test::text::{contains_char, equal, index_of, trim};

fn words(items: &[&str]) -> Vec<String> {
    items.iter().map(|s| s.to_string()).collect()
}

fn output(success: bool, stdout: &str) -> Output {
    Output { success, stdout: stdout.to_string(), stderr: String::new() }
}

#[test]
fn sha_keeps_its_text() {
    let sha = GitSha::new("abc123".to_string());
    assert_eq!(sha.as_str(), "abc123");
    assert!(sha.same(&GitSha::new("abc123".to_string())));
    assert!(!sha.same(&GitSha::new("abc124".to_string())));
    assert_eq!(sha.clone(), sha);
}

#[test]
fn repository_keeps_its_root() {
    let repo = GitRepository::new("/work/repo".to_string());
    assert_eq!(repo.root(), "/work/repo");
    let test = repo.test_command("unit".to_string(), "make check".to_string());
    assert_eq!(test.repo, repo);
    assert_eq!(test.test_name, "unit");
    assert_eq!(test.test_command, "make check");
    assert_eq!(test.clone(), test);
}

#[test]
fn git_acts_on_the_repository() {
    let repo = GitRepository::new("/work/repo".to_string());
    let invocation = repo.run_git(words(&["status", "--short"]));
    assert_eq!(invocation.program, "git");
    assert_eq!(invocation.args, words(&["-C", "/work/repo", "status", "--short"]));
    assert_eq!(invocation.dir, None);
    assert_eq!(git("/x", Vec::new()).args, words(&["-C", "/x"]));
}

#[test]
fn shell_runs_in_its_directory() {
    let invocation = shell("make -j16 test", "/tmp/w");
    assert_eq!(invocation.program, "sh");
    assert_eq!(invocation.args, words(&["-c", "make -j16 test"]));
    assert_eq!(invocation.dir, Some("/tmp/w".to_string()));
}

#[test]
fn invocations_of_the_repository() {
    let repo = GitRepository::new("/r".to_string());
    assert_eq!(
        GitRepository::get_repo_root("/some/dir").args,
        words(&["-C", "/some/dir", "rev-parse", "--show-toplevel"])
    );
    assert_eq!(repo.get_head_commit().args, words(&["-C", "/r", "rev-parse", "HEAD"]));
    assert_eq!(repo.read_config().args, words(&["-C", "/r", "config", "--null", "--list"]));
    assert_eq!(
        repo.add_note("refs/notes/commits", "abc", "unit: ok").args,
        words(&[
            "-C",
            "/r",
            "notes",
            "--ref",
            "refs/notes/commits",
            "add",
            "-f",
            "-m",
            "unit: ok",
            "abc"
        ])
    );
}

#[test]
fn answer_of_git_is_trimmed() {
    let args = words(&["rev-parse", "HEAD"]);
    assert_eq!(
        run_git_with_string(&output(true, "  abc123\n"), &args, ErrorKind::Resolution).unwrap(),
        "abc123"
    );
    let error =
        run_git_with_string(&output(false, "abc123\n"), &args, ErrorKind::Resolution).unwrap_err();
    assert_eq!(error.kind, ErrorKind::Resolution);
    assert_eq!(error.message, "Git command failed: [\"rev-parse\", \"HEAD\"]");
    assert_eq!(error.to_text(), "Git command failed: [\"rev-parse\", \"HEAD\"]");
    let error = run_git_with_string(&output(false, ""), &Vec::new(), ErrorKind::Store).unwrap_err();
    assert_eq!(error.kind, ErrorKind::Store);
    assert_eq!(error.message, "Git command failed: []");
    let quoted = words(&["config", "a \"b\"\n"]);
    let error = run_git_with_string(&output(false, ""), &quoted, ErrorKind::Store).unwrap_err();
    assert_eq!(error.message, format!("Git command failed: {:?}", quoted));
}

#[test]
fn failure_of_git_shows_what_it_is_given() {
    let error = git_failure(ErrorKind::Provision, "[\"worktree\"]");
    assert_eq!(error.kind, ErrorKind::Provision);
    assert_eq!(error.message, "Git command failed: [\"worktree\"]");
}

#[test]
fn arguments_besides_the_repository() {
    let repo = GitRepository::new("/work/repo".to_string());
    assert_eq!(git_arguments(&repo.get_head_commit()), words(&["rev-parse", "HEAD"]));
    assert_eq!(git_arguments(&git("/x", Vec::new())), words(&[]));
    assert_eq!(git_arguments(&shell("true", "/w")), words(&["-c", "true"]));
    let short = Invocation { program: "git".to_string(), args: words(&["-C"]), dir: None };
    assert_eq!(git_arguments(&short), words(&["-C"]));
    let bare = Invocation { program: "git".to_string(), args: Vec::new(), dir: None };
    assert_eq!(git_arguments(&bare), words(&[]));
}

#[test]
fn repository_root_from_the_answer() {
    let repo = get_repo_root(&output(true, "/work/repo\n")).unwrap();
    assert_eq!(repo.root(), "/work/repo");
    let error = get_repo_root(&output(false, "/work/repo\n")).unwrap_err();
    assert_eq!(error.kind, ErrorKind::Configuration);
    assert_eq!(error.message, "Not in a git repository");
}

#[test]
fn trim_takes_spaces_from_both_ends_only() {
    assert_eq!(trim("  a b \t\n"), "a b");
    assert_eq!(trim(""), "");
    assert_eq!(trim(" \n\t "), "");
    assert_eq!(trim("x"), "x");
    assert_eq!(trim("\u{a0}x\u{3000}"), "x");
    assert_eq!(trim("\u{200b}x"), "\u{200b}x");
    for sample in ["", " ", " a", "a ", "\r\n a \u{2028}", "é \u{85}", "\u{1680}\u{2000}z\u{205f}"] {
        assert_eq!(trim(sample), sample.trim());
    }
}

#[test]
fn text_helpers() {
    assert!(equal("abc", "abc"));
    assert!(!equal("abc", "abd"));
    assert!(!equal("abc", "ab"));
    assert_eq!(index_of("a/b/c", '/'), 1);
    assert_eq!(index_of("abc", '/'), 3);
    assert_eq!(index_of("", '/'), 0);
    assert_eq!(index_of("é/", '/'), 1);
    assert!(contains_char("a b", ' '));
    assert!(!contains_char("ab", ' '));
}

#[test]
fn paths_are_joined_with_one_separator() {
    assert_eq!(join("/a", "b"), "/a/b");
    assert_eq!(join("/a/", "b"), "/a/b");
    assert_eq!(join("/a", "/b"), "/b");
    assert_eq!(join("", "b"), "b");
    assert_eq!(join("/a", ""), "/a/");
    assert!(is_absolute("/a"));
    assert!(!is_absolute("a/b"));
    assert!(!is_absolute(""));
    for (base, rel) in [("/a", "b"), ("/a/", "b/c"), ("/a", "/b"), ("", "b"), ("a", "")] {
        let expected = std::path::Path::new(base).join(rel);
        assert_eq!(join(base, rel), expected.to_str().unwrap());
    }
}

#[test]
fn config_is_read_from_null_ended_records() {
    let entries = parse_config("a.b\nvalue one\0c.d\n\0novalue\0e.f\nx\ny\0");
    let shown: Vec<(String, String)> =
        entries.iter().map(|e| (e.key.clone(), e.value.clone())).collect();
    assert_eq!(
        shown,
        vec![
            ("a.b".to_string(), "value one".to_string()),
            ("c.d".to_string(), "".to_string()),
            ("e.f".to_string(), "x\ny".to_string()),
        ]
    );
    assert_eq!(parse_config("").len(), 0);
    assert_eq!(parse_config("\0\0").len(), 0);
    assert_eq!(parse_config("k\nv").len(), 1);
}

#[test]
fn config_holds_each_key_once() {
    let config = GitConfig::load("a\n1\0b\n2\0a\n3\0");
    assert_eq!(config.len(), 2);
    assert_eq!(config.get("a"), Some("3"));
    assert_eq!(config.get("b"), Some("2"));
    assert_eq!(config.get("c"), None);
    assert_eq!(config.entry(0).key, "a");
    assert_eq!(config.entry(1).key, "b");
    assert_eq!(config.clone(), config);
}

#[test]
fn config_set_and_unset() {
    let mut config = GitConfig::new();
    assert_eq!(config.len(), 0);
    config.set("a", "1");
    config.set("b", "2");
    config.set("a", "3");
    assert_eq!(config.len(), 2);
    assert_eq!(config.get("a"), Some("3"));
    assert_eq!(config.entry(0).value, "3");
    assert!(config.unset("a"));
    assert!(!config.unset("a"));
    assert_eq!(config.get("a"), None);
    assert_eq!(config.get("b"), Some("2"));
    assert_eq!(config.len(), 1);
}

#[test]
fn config_values_by_key() {
    let mut config = GitConfig::new();
    config.set("user.name", "  Ada \n");
    assert_eq!(get_config_value(&config, "user.name").unwrap(), "Ada");
    let error = get_config_value(&config, "user.email").unwrap_err();
    assert_eq!(error.kind, ErrorKind::Configuration);
    assert_eq!(error.message, "Config value not found for key: user.email");
    let repo = GitRepository::new("/r".to_string());
    assert_eq!(repo.get_config_value(&config, "user.name").unwrap(), "Ada");
}

#[test]
fn test_commands_live_under_their_key() {
    assert_eq!(test_config_key("unit"), "test.unit.command");
    let mut config = GitConfig::new();
    set_test_command(&mut config, "unit", "make check");
    assert_eq!(config.get("test.unit.command"), Some("make check"));
    assert_eq!(get_test_command(&config, "unit").unwrap(), "make check");
    let repo = GitRepository::new("/r".to_string());
    let test = repo.get_test_command(&config, "unit").unwrap();
    assert_eq!(test.test_name, "unit");
    assert_eq!(test.test_command, "make check");
    assert_eq!(test.repo, repo);
    let error = repo.get_test_command(&config, "other").unwrap_err();
    assert_eq!(error.kind, ErrorKind::Configuration);
    assert_eq!(error.message, "Test 'other' is not defined");
}

#[test]
fn setting_gives_the_invocation_that_persists() {
    let repo = GitRepository::new("/r".to_string());
    let mut config = GitConfig::new();
    let set = repo.set_config_value(&mut config, "a.b", "c d");
    assert_eq!(set.args, words(&["-C", "/r", "config", "a.b", "c d"]));
    assert_eq!(config.get("a.b"), Some("c d"));
    let set = repo.set_test_command(&mut config, "unit", "true");
    assert_eq!(set.args, words(&["-C", "/r", "config", "test.unit.command", "true"]));
    assert_eq!(config.get("test.unit.command"), Some("true"));
}

#[test]
fn worktree_config_of_a_repository() {
    let repo = GitRepository::new("/work/repo".to_string());
    assert_eq!(repo.to_worktree_config(), WorktreeConfig::Main(repo.clone()));
    assert_eq!(
        repo.to_linked_worktree_config(".worktrees"),
        WorktreeConfig::Linked { repo: repo.clone(), path: "/work/repo/.worktrees".to_string() }
    );
    assert_eq!(
        repo.to_linked_worktree_config("/tmp/trees"),
        WorktreeConfig::Linked { repo: repo.clone(), path: "/tmp/trees".to_string() }
    );
    assert!(repo.to_linked_worktree_config("x").is_linked());
    assert!(!repo.to_worktree_config().is_linked());
}

#[test]
fn worktree_paths() {
    let repo = GitRepository::new("/work/repo".to_string());
    let main = repo.to_worktree_config().to_worktree(GitSha::new("abc".to_string()), "unit");
    assert_eq!(main, Worktree::Main(repo.clone()));
    assert_eq!(main.get_path(), "/work/repo");
    let linked = repo
        .to_linked_worktree_config("/tmp/trees")
        .to_worktree(GitSha::new("abc".to_string()), "unit");
    assert_eq!(linked.get_path(), "/tmp/trees/abc/unit");
    assert_eq!(linked.clone(), linked);
    let other = repo
        .to_linked_worktree_config("/tmp/trees")
        .to_worktree(GitSha::new("abc".to_string()), "lint");
    assert_ne!(linked.get_path(), other.get_path());
}

#[test]
fn worktree_steps() {
    let repo = GitRepository::new("/work/repo".to_string());
    let main = repo.to_worktree_config().to_worktree(GitSha::new("abc".to_string()), "unit");
    assert_eq!(main.create(), Vec::<Operation>::new());
    assert_eq!(main.delete(), Vec::<Operation>::new());
    let linked = repo
        .to_linked_worktree_config("/tmp/trees")
        .to_worktree(GitSha::new("abc".to_string()), "unit");
    let create = linked.create();
    assert_eq!(create.len(), 2);
    assert_eq!(create[0], Operation::CreateDirAll { path: "/tmp/trees/abc/unit".to_string() });
    match &create[1] {
        Operation::Run(invocation) => {
            assert_eq!(invocation.program, "git");
            assert_eq!(
                invocation.args,
                words(&["-C", "/work/repo", "worktree", "add", "--detach", "/tmp/trees/abc/unit", "abc"])
            );
        }
        other => panic!("unexpected step {:?}", other),
    }
    let delete = linked.delete();
    assert_eq!(delete.len(), 1);
    match &delete[0] {
        Operation::Run(invocation) => assert_eq!(
            invocation.args,
            words(&["-C", "/work/repo", "worktree", "remove", "--force", "/tmp/trees/abc/unit"])
        ),
        other => panic!("unexpected step {:?}", other),
    }
}
