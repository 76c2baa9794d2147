//! From what the caller names to commits and trees: the invocations that
//! ask `git`, and the reading of its answers.

use vstd::prelude::*;
use vstd::string::StrSliceExecFns;
use vstd::string::StringExecFns;
use crate::command::{git_invocation, Invocation};
use crate::git::{GitRepository, GitSha};
use crate::text::{chars_of, first_index_of, lemma_first_index_of_unique, trim, trimmed};

verus! {

/// An expression that names a range of commits: it holds two dots in a
/// row.
pub open spec fn names_range(expression: Seq<char>) -> bool {
    exists|i: int|
        0 <= i && i + 1 < expression.len() && #[trigger] expression[i] == '.' && expression[i + 1]
            == '.'
}

/// The arguments with which `git` resolves `expression`: a range is
/// listed from its oldest commit on; anything else must name one commit.
pub open spec fn resolving_args(expression: Seq<char>) -> Seq<Seq<char>> {
    if names_range(expression) {
        seq!["rev-list"@, "--reverse"@, expression]
    } else {
        seq!["rev-parse"@, "--verify"@, expression + "^{commit}"@]
    }
}

/// Whether `expression` names a range of commits.
pub fn is_range(expression: &str) -> (r: bool)
    ensures
        r == names_range(expression@),
{
    let chars = chars_of(expression);
    let mut i: usize = 1;
    while i < chars.len()
        invariant
            chars@ == expression@,
            1 <= i,
            forall|j: int|
                0 <= j && j + 1 < i ==> !(#[trigger] chars@[j] == '.' && chars@[j + 1] == '.'),
        decreases chars.len() - i,
    {
        if chars[i - 1] == '.' && chars[i] == '.' {
            assert(expression@[i - 1] == '.' && expression@[i - 1 + 1] == '.');
            return true;
        }
        i += 1;
    }
    false
}

/// The invocation that lists the commits that `expression` names.
pub fn resolve_commits(repo: &GitRepository, expression: &str) -> (r: Invocation)
    ensures
        r@ == git_invocation(repo@, resolving_args(expression@)),
{
    let mut args: Vec<String> = Vec::new();
    if is_range(expression) {
        args.push(String::from_str("rev-list"));
        args.push(String::from_str("--reverse"));
        args.push(String::from_str(expression));
        assert(args.deep_view() == seq!["rev-list"@, "--reverse"@, expression@]);
    } else {
        let mut commit = String::from_str(expression);
        commit.append("^{commit}");
        args.push(String::from_str("rev-parse"));
        args.push(String::from_str("--verify"));
        args.push(commit);
        assert(args.deep_view() == seq!["rev-parse"@, "--verify"@, expression@ + "^{commit}"@]);
    }
    repo.run_git(args)
}

/// The invocation that prints the tree of `commit`.
pub fn resolve_tree(repo: &GitRepository, commit: &str) -> (r: Invocation)
    ensures
        r@ == git_invocation(repo@, seq!["rev-parse"@, "--verify"@, commit@ + "^{tree}"@]),
{
    let mut tree = String::from_str(commit);
    tree.append("^{tree}");
    let mut args: Vec<String> = Vec::new();
    args.push(String::from_str("rev-parse"));
    args.push(String::from_str("--verify"));
    args.push(tree);
    assert(args.deep_view() == seq!["rev-parse"@, "--verify"@, commit@ + "^{tree}"@]);
    repo.run_git(args)
}

/// What one line of a list names: the line without the spaces around it,
/// or nothing where that leaves nothing.
pub open spec fn line_entry(line: Seq<char>) -> Seq<Seq<char>> {
    if trimmed(line).len() > 0 {
        seq![trimmed(line)]
    } else {
        seq![]
    }
}

/// What the lines of `text` name, in their order.
pub open spec fn listed_lines(text: Seq<char>) -> Seq<Seq<char>>
    decreases text.len(),
{
    if text.len() == 0 {
        seq![]
    } else {
        let i = first_index_of(text, '\n');
        let rest = if 0 <= i < text.len() {
            text.subrange(i + 1, text.len() as int)
        } else {
            seq![]
        };
        line_entry(text.subrange(0, i)) + listed_lines(rest)
    }
}

/// The commits that a list with one commit on each line names.
pub fn commit_lines(text: &str) -> (r: Vec<GitSha>)
    ensures
        r.deep_view() == listed_lines(text@),
{
    let chars = chars_of(text);
    let n = chars.len();
    let mut out: Vec<GitSha> = Vec::new();
    let mut start: usize = 0;
    proof {
        assert(text@.subrange(0, n as int) == text@);
        assert(out.deep_view() + listed_lines(text@) == listed_lines(text@));
    }
    while start < n
        invariant
            chars@ == text@,
            n == chars.len(),
            start <= n,
            listed_lines(text@) == out.deep_view() + listed_lines(
                text@.subrange(start as int, n as int),
            ),
        decreases n - start,
    {
        let ghost rest_text = text@.subrange(start as int, n as int);
        let mut end: usize = start;
        while end < n && chars[end] != '\n'
            invariant
                n == chars.len(),
                start <= end <= n,
                forall|j: int| start <= j < end ==> #[trigger] chars@[j] != '\n',
            decreases n - end,
        {
            end += 1;
        }
        let ghost line = rest_text.subrange(0, end - start);
        proof {
            assert forall|j: int| 0 <= j < end - start implies #[trigger] rest_text[j] != '\n' by {
                assert(rest_text[j] == chars@[start + j]);
            }
            lemma_first_index_of_unique(rest_text, '\n', end - start);
        }
        let ghost before = out.deep_view();
        let name = trim(text.substring_char(start, end));
        assert(text@.subrange(start as int, end as int) == line);
        assert(name@ == trimmed(line));
        if !name.as_str().is_empty() {
            out.push(GitSha::new(name));
            assert(out.deep_view() == before + line_entry(line));
        } else {
            assert(out.deep_view() == before + line_entry(line));
        }
        let next: usize = if end < n {
            end + 1
        } else {
            n
        };
        proof {
            let rest = if end - start < rest_text.len() {
                rest_text.subrange(end - start + 1, rest_text.len() as int)
            } else {
                seq![]
            };
            assert(rest == text@.subrange(next as int, n as int));
            assert(listed_lines(rest_text) == line_entry(line) + listed_lines(rest));
        }
        start = next;
    }
    proof {
        assert(text@.subrange(start as int, n as int).len() == 0);
        assert(out.deep_view() + Seq::<Seq<char>>::empty() == out.deep_view());
    }
    out
}

/// `commits` with each commit at the place where it first stands.
pub open spec fn without_repeats(commits: Seq<Seq<char>>) -> Seq<Seq<char>>
    decreases commits.len(),
{
    if commits.len() == 0 {
        seq![]
    } else {
        let before = without_repeats(commits.drop_last());
        if before.contains(commits.last()) {
            before
        } else {
            before.push(commits.last())
        }
    }
}

/// The commits of `commits`, each once, in the order in which they first
/// stand.
pub fn unique_commits(commits: &Vec<GitSha>) -> (r: Vec<GitSha>)
    ensures
        r.deep_view() == without_repeats(commits.deep_view()),
{
    let mut out: Vec<GitSha> = Vec::new();
    let mut i: usize = 0;
    assert(commits.deep_view().subrange(0, 0) == Seq::<Seq<char>>::empty());
    assert(out.deep_view() == Seq::<Seq<char>>::empty());
    while i < commits.len()
        invariant
            i <= commits.len(),
            out.deep_view() == without_repeats(commits.deep_view().subrange(0, i as int)),
        decreases commits.len() - i,
    {
        let ghost upto = commits.deep_view().subrange(0, i + 1);
        let ghost before = out.deep_view();
        proof {
            assert(upto.drop_last() == commits.deep_view().subrange(0, i as int));
            assert(upto.last() == commits[i as int]@);
        }
        let mut seen = false;
        let mut j: usize = 0;
        while j < out.len()
            invariant
                j <= out.len(),
                i < commits.len(),
                before == out.deep_view(),
                seen == exists|k: int| 0 <= k < j && before[k] == commits[i as int]@,
            decreases out.len() - j,
        {
            if out[j].same(&commits[i]) {
                assert(before[j as int] == commits[i as int]@);
                seen = true;
            }
            j += 1;
        }
        assert(seen == before.contains(commits[i as int]@));
        if !seen {
            out.push(commits[i].clone());
            assert(out.deep_view() == before.push(commits[i as int]@));
        }
        i += 1;
    }
    assert(commits.deep_view().subrange(0, i as int) == commits.deep_view());
    out
}

} // verus!
