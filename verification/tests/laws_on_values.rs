use git_test::config::GitConfig;
use git_test::git::GitSha;
use git_test::resolve::unique_commits;
use git_test::store::{Outcome, ResultStore, Verdict};

fn verdict(test: &str, tree: &str, outcome: Outcome) -> Verdict {
    Verdict {
        test_name: test.to_string(),
        tree: GitSha::new(tree.to_string()),
        outcome,
        stdout: String::new(),
        stderr: String::new(),
        timestamp: 0,
    }
}

#[test]
fn a_value_that_was_set_is_found_and_others_are_kept() {
    let mut config = GitConfig::load("a\n1\0b\n2\0");
    config.set("c", "3");
    assert_eq!(config.get("c"), Some("3"));
    assert_eq!(config.get("a"), Some("1"));
    assert_eq!(config.get("b"), Some("2"));
    config.set("a", "4");
    assert_eq!(config.get("a"), Some("4"));
    assert_eq!(config.get("b"), Some("2"));
    assert_eq!(config.get("c"), Some("3"));
}

#[test]
fn a_key_that_was_removed_is_gone_and_others_are_kept() {
    let mut config = GitConfig::load("a\n1\0b\n2\0c\n3\0");
    assert!(config.unset("b"));
    assert_eq!(config.get("b"), None);
    assert_eq!(config.get("a"), Some("1"));
    assert_eq!(config.get("c"), Some("3"));
}

#[test]
fn verdicts_recorded_in_any_order_are_all_found() {
    let names = ["a", "b", "c", "d", "e"];
    for order in [[0, 1, 2, 3, 4], [4, 3, 2, 1, 0], [2, 0, 4, 1, 3]] {
        let mut store = ResultStore::new();
        store.put(verdict("c", "t", Outcome::Fail));
        for i in order {
            store.put(verdict(names[i], "t", Outcome::Pass));
        }
        assert_eq!(store.len(), names.len());
        for name in names {
            assert_eq!(store.get(name, "t"), Some(&verdict(name, "t", Outcome::Pass)));
        }
    }
}

#[test]
fn what_is_left_of_a_list_holds_each_commit_once() {
    let given: Vec<GitSha> =
        ["a", "b", "a", "c", "b", "a"].iter().map(|s| GitSha::new(s.to_string())).collect();
    let left = unique_commits(&given);
    for commit in &given {
        assert_eq!(left.iter().filter(|c| c.same(commit)).count(), 1);
    }
    for commit in &left {
        assert!(given.iter().any(|c| c.same(commit)));
    }
}
