//! Verdicts, and the store that remembers one verdict for each test and
//! tree.

use vstd::prelude::*;
use vstd::string::StringExecFns;
use crate::config::{assigned, lookup, GitConfig};
use crate::git::GitSha;
use crate::text::{equal, first_index_of, lemma_first_index_of, lemma_first_index_of_unique, trim, trimmed};

verus! {

/// How a test ended.
#[derive(Clone, Copy, Debug, PartialEq, Eq, Structural)]
pub enum Outcome {
    Pass,
    Fail,
}

/// The outcome of one test on one tree, with what the test wrote and the
/// time at which it ended.
#[derive(Debug, PartialEq, Eq)]
pub struct Verdict {
    pub test_name: String,
    pub tree: GitSha,
    pub outcome: Outcome,
    pub stdout: String,
    pub stderr: String,
    pub timestamp: u64,
}

pub struct VerdictView {
    pub test_name: Seq<char>,
    pub tree: Seq<char>,
    pub outcome: Outcome,
    pub stdout: Seq<char>,
    pub stderr: Seq<char>,
    pub timestamp: u64,
}

impl View for Verdict {
    type V = VerdictView;

    open spec fn view(&self) -> VerdictView {
        VerdictView {
            test_name: self.test_name@,
            tree: self.tree@,
            outcome: self.outcome,
            stdout: self.stdout@,
            stderr: self.stderr@,
            timestamp: self.timestamp,
        }
    }
}

impl DeepView for Verdict {
    type V = VerdictView;

    open spec fn deep_view(&self) -> VerdictView {
        self@
    }
}

impl Clone for Verdict {
    fn clone(&self) -> (r: Self)
        ensures
            r@ == self@,
    {
        Verdict {
            test_name: self.test_name.clone(),
            tree: self.tree.clone(),
            outcome: self.outcome,
            stdout: self.stdout.clone(),
            stderr: self.stderr.clone(),
            timestamp: self.timestamp,
        }
    }
}

/// The outcome of a program that ended with or without success.
pub open spec fn outcome_of(success: bool) -> Outcome {
    if success {
        Outcome::Pass
    } else {
        Outcome::Fail
    }
}

/// The mark that stands for an outcome in the stored record of a verdict.
pub open spec fn marker_of(outcome: Outcome) -> Seq<char> {
    match outcome {
        Outcome::Pass => "✓"@,
        Outcome::Fail => "✗"@,
    }
}

/// The word that names an outcome in a summary.
pub open spec fn outcome_word(outcome: Outcome) -> Seq<char> {
    match outcome {
        Outcome::Pass => "Pass"@,
        Outcome::Fail => "Fail"@,
    }
}

/// The outcome that a stored record holds, spaces around it set aside.
pub open spec fn marked(record: Seq<char>) -> Option<Outcome> {
    if trimmed(record) == "✓"@ {
        Some(Outcome::Pass)
    } else if trimmed(record) == "✗"@ {
        Some(Outcome::Fail)
    } else {
        None
    }
}

impl Outcome {
    pub fn from_success(success: bool) -> (r: Outcome)
        ensures
            r == outcome_of(success),
    {
        if success {
            Outcome::Pass
        } else {
            Outcome::Fail
        }
    }

    pub fn is_pass(&self) -> (r: bool)
        ensures
            r == (*self == Outcome::Pass),
    {
        match self {
            Outcome::Pass => true,
            Outcome::Fail => false,
        }
    }

    /// The word that names this outcome in a summary.
    pub fn word(&self) -> (r: &'static str)
        ensures
            r@ == outcome_word(*self),
    {
        match self {
            Outcome::Pass => "Pass",
            Outcome::Fail => "Fail",
        }
    }

    /// The mark that the stored record of a verdict holds for this outcome.
    pub fn marker(&self) -> (r: &'static str)
        ensures
            r@ == marker_of(*self),
    {
        match self {
            Outcome::Pass => "✓",
            Outcome::Fail => "✗",
        }
    }

    /// The outcome that the stored record `record` holds.
    pub fn from_marker(record: &str) -> (r: Option<Outcome>)
        ensures
            r == marked(record@),
    {
        let mark = trim(record);
        if equal(mark.as_str(), "✓") {
            Some(Outcome::Pass)
        } else if equal(mark.as_str(), "✗") {
            Some(Outcome::Fail)
        } else {
            None
        }
    }
}

/// The test and tree of each verdict of `verdicts`.
pub open spec fn verdict_keys(verdicts: Seq<VerdictView>) -> Seq<(Seq<char>, Seq<char>)> {
    Seq::new(verdicts.len(), |i: int| (verdicts[i].test_name, verdicts[i].tree))
}

/// The verdict that `verdicts` holds for `test` on `tree`.
pub open spec fn found(verdicts: Seq<VerdictView>, test: Seq<char>, tree: Seq<char>) -> Option<
    VerdictView,
> {
    let i = first_index_of(verdict_keys(verdicts), (test, tree));
    if 0 <= i < verdicts.len() {
        Some(verdicts[i])
    } else {
        None
    }
}

/// `verdicts` with `verdict` in the place of the one for the same test and
/// tree, or at the end where there was none.
pub open spec fn recorded(verdicts: Seq<VerdictView>, verdict: VerdictView) -> Seq<VerdictView> {
    let i = first_index_of(verdict_keys(verdicts), (verdict.test_name, verdict.tree));
    if 0 <= i < verdicts.len() {
        verdicts.update(i, verdict)
    } else {
        verdicts.push(verdict)
    }
}

/// No test and tree have two verdicts.
pub open spec fn one_verdict_each(verdicts: Seq<VerdictView>) -> bool {
    forall|i: int, j: int|
        0 <= i < j < verdicts.len() ==> (#[trigger] verdicts[i]).test_name != (
        #[trigger] verdicts[j]).test_name || verdicts[i].tree != verdicts[j].tree
}

/// A verdict that was recorded is the one found for its test and tree, and
/// every other test and tree keeps what it had.
pub proof fn lemma_found_recorded(
    verdicts: Seq<VerdictView>,
    verdict: VerdictView,
    test: Seq<char>,
    tree: Seq<char>,
)
    ensures
        found(recorded(verdicts, verdict), verdict.test_name, verdict.tree) == Some(verdict),
        (test, tree) != (verdict.test_name, verdict.tree) ==> found(
            recorded(verdicts, verdict),
            test,
            tree,
        ) == found(verdicts, test, tree),
{
    let key = (verdict.test_name, verdict.tree);
    let other = (test, tree);
    let ks = verdict_keys(verdicts);
    let after = recorded(verdicts, verdict);
    let ka = verdict_keys(after);
    lemma_first_index_of(ks, key);
    lemma_first_index_of(ks, other);
    let i = first_index_of(ks, key);
    assert forall|j: int| 0 <= j < i implies #[trigger] ka[j] != key by {
        assert(ks[j] != key);
    }
    assert(ka[i] == key);
    lemma_first_index_of_unique(ka, key, i);
    if other != key {
        let o = first_index_of(ks, other);
        if o < verdicts.len() {
            assert(ks[o] == other);
            assert(o != i) by {
                if i < verdicts.len() {
                    assert(ks[i] == key);
                }
            }
            assert forall|j: int| 0 <= j < o implies #[trigger] ka[j] != other by {
                assert(ks[j] != other);
            }
            assert(ka[o] == other);
            lemma_first_index_of_unique(ka, other, o);
        } else {
            assert forall|j: int| 0 <= j < ka.len() implies #[trigger] ka[j] != other by {
                if j < ks.len() {
                    assert(ks[j] != other);
                }
            }
            lemma_first_index_of_unique(ka, other, ka.len() as int);
        }
    }
}

/// Recording keeps one verdict for each test and tree.
pub proof fn lemma_recorded_one_each(verdicts: Seq<VerdictView>, verdict: VerdictView)
    requires
        one_verdict_each(verdicts),
    ensures
        one_verdict_each(recorded(verdicts, verdict)),
{
    let key = (verdict.test_name, verdict.tree);
    let ks = verdict_keys(verdicts);
    lemma_first_index_of(ks, key);
    let i = first_index_of(ks, key);
    let after = recorded(verdicts, verdict);
    assert forall|a: int, b: int| 0 <= a < b < after.len() implies (#[trigger] after[a]).test_name
        != (#[trigger] after[b]).test_name || after[a].tree != after[b].tree by {
        if i < verdicts.len() {
            assert(ks[i] == key);
            assert(verdicts[a].test_name != verdicts[b].test_name || verdicts[a].tree
                != verdicts[b].tree);
        } else {
            if b == verdicts.len() {
                assert(ks[a] != key);
            } else {
                assert(verdicts[a].test_name != verdicts[b].test_name || verdicts[a].tree
                    != verdicts[b].tree);
            }
        }
    }
}

/// The line that a summary holds for one verdict.
pub open spec fn summary_line(verdict: VerdictView) -> Seq<char> {
    verdict.test_name + ": "@ + outcome_word(verdict.outcome)
}

/// The summary of `verdicts`: one line for each, in their order, with a
/// line break between two lines.
pub open spec fn summary_text(verdicts: Seq<VerdictView>) -> Seq<char>
    decreases verdicts.len(),
{
    if verdicts.len() == 0 {
        seq![]
    } else if verdicts.len() == 1 {
        summary_line(verdicts[0])
    } else {
        summary_text(verdicts.drop_last()) + "\n"@ + summary_line(verdicts.last())
    }
}

/// The summary of `verdicts`, as it is stored for a commit.
pub fn summary(verdicts: &Vec<Verdict>) -> (r: String)
    ensures
        r@ == summary_text(verdicts.deep_view()),
{
    let mut text = String::new();
    let mut i: usize = 0;
    assert(verdicts.deep_view().subrange(0, 0) == Seq::<VerdictView>::empty());
    while i < verdicts.len()
        invariant
            i <= verdicts.len(),
            text@ == summary_text(verdicts.deep_view().subrange(0, i as int)),
        decreases verdicts.len() - i,
    {
        let ghost upto = verdicts.deep_view().subrange(0, i + 1);
        proof {
            assert(upto.drop_last() == verdicts.deep_view().subrange(0, i as int));
            assert(upto.last() == verdicts[i as int]@);
            if i == 0 {
                assert(upto[0] == verdicts[0]@);
            }
        }
        if i > 0 {
            text.append("\n");
        }
        let ghost before = text@;
        text.append(verdicts[i].test_name.as_str());
        text.append(": ");
        text.append(verdicts[i].outcome.word());
        proof {
            assert(text@ == before + summary_line(verdicts[i as int]@));
            if i == 0 {
                assert(before == Seq::<char>::empty());
                assert(text@ == summary_line(verdicts[0]@));
            }
        }
        i += 1;
    }
    assert(verdicts.deep_view().subrange(0, i as int) == verdicts.deep_view());
    text
}

/// The verdicts that are remembered and the summary that was last written
/// for each commit. A store that was made by `new` holds one verdict for
/// each test and tree, whatever is put into it.
#[derive(Debug, PartialEq, Eq)]
pub struct ResultStore {
    verdicts: Vec<Verdict>,
    summaries: GitConfig,
}

pub struct ResultStoreView {
    pub verdicts: Seq<VerdictView>,
    pub summaries: Seq<(Seq<char>, Seq<char>)>,
}

impl View for ResultStore {
    type V = ResultStoreView;

    closed spec fn view(&self) -> ResultStoreView {
        ResultStoreView { verdicts: self.verdicts.deep_view(), summaries: self.summaries@ }
    }
}

impl ResultStore {
    /// A store that remembers nothing.
    pub fn new() -> (r: Self)
        ensures
            r@.verdicts == Seq::<VerdictView>::empty(),
            r@.summaries == Seq::<(Seq<char>, Seq<char>)>::empty(),
            one_verdict_each(r@.verdicts),
    {
        let verdicts: Vec<Verdict> = Vec::new();
        assert(verdicts.deep_view() == Seq::<VerdictView>::empty());
        ResultStore { verdicts, summaries: GitConfig::new() }
    }

    /// How many verdicts the store holds.
    pub fn len(&self) -> (r: usize)
        ensures
            r == self@.verdicts.len(),
    {
        self.verdicts.len()
    }

    fn position(&self, test: &str, tree: &str) -> (r: usize)
        ensures
            r == first_index_of(verdict_keys(self@.verdicts), (test@, tree@)),
            r <= self@.verdicts.len(),
    {
        let mut i: usize = 0;
        while i < self.verdicts.len() && !(equal(self.verdicts[i].test_name.as_str(), test)
            && equal(self.verdicts[i].tree.as_str(), tree))
            invariant
                i <= self.verdicts.len(),
                forall|j: int|
                    0 <= j < i ==> #[trigger] verdict_keys(self@.verdicts)[j] != (test@, tree@),
            decreases self.verdicts.len() - i,
        {
            i += 1;
        }
        proof {
            lemma_first_index_of_unique(verdict_keys(self@.verdicts), (test@, tree@), i as int);
        }
        i
    }

    /// The verdict that is remembered for `test` on `tree`.
    pub fn get(&self, test: &str, tree: &str) -> (r: Option<&Verdict>)
        ensures
            r.deep_view() == found(self@.verdicts, test@, tree@),
    {
        let i = self.position(test, tree);
        if i < self.verdicts.len() {
            Some(&self.verdicts[i])
        } else {
            None
        }
    }

    /// Remembers `verdict` in place of what was remembered for its test and
    /// tree.
    pub fn put(&mut self, verdict: Verdict)
        ensures
            final(self)@.verdicts == recorded(old(self)@.verdicts, verdict@),
            final(self)@.summaries == old(self)@.summaries,
            one_verdict_each(old(self)@.verdicts) ==> one_verdict_each(final(self)@.verdicts),
    {
        proof {
            if one_verdict_each(self@.verdicts) {
                lemma_recorded_one_each(self@.verdicts, verdict@);
            }
        }
        let i = self.position(verdict.test_name.as_str(), verdict.tree.as_str());
        let ghost before = self.verdicts.deep_view();
        if i < self.verdicts.len() {
            self.verdicts.set(i, verdict);
            assert(self.verdicts.deep_view() == before.update(i as int, verdict@));
        } else {
            self.verdicts.push(verdict);
            assert(self.verdicts.deep_view() == before.push(verdict@));
        }
    }

    /// Remembers the verdict that the stored record `record` holds for
    /// `test` on `tree`, without output and with the time 0; a record that
    /// holds no outcome changes nothing.
    pub fn load(&mut self, test: &str, tree: &str, record: &str) -> (r: bool)
        ensures
            r == marked(record@) is Some,
            final(self)@.summaries == old(self)@.summaries,
            one_verdict_each(old(self)@.verdicts) ==> one_verdict_each(final(self)@.verdicts),
            match marked(record@) {
                Some(outcome) => final(self)@.verdicts == recorded(
                    old(self)@.verdicts,
                    VerdictView {
                        test_name: test@,
                        tree: tree@,
                        outcome,
                        stdout: seq![],
                        stderr: seq![],
                        timestamp: 0,
                    },
                ),
                None => final(self)@.verdicts == old(self)@.verdicts,
            },
    {
        match Outcome::from_marker(record) {
            Some(outcome) => {
                self.put(
                    Verdict {
                        test_name: String::from_str(test),
                        tree: GitSha::new(String::from_str(tree)),
                        outcome,
                        stdout: String::new(),
                        stderr: String::new(),
                        timestamp: 0,
                    },
                );
                true
            },
            None => false,
        }
    }

    /// Writes the summary of `verdicts` as the record of `commit`, in place
    /// of the one that the commit had.
    pub fn put_summary(&mut self, commit: &str, verdicts: &Vec<Verdict>)
        ensures
            final(self)@.verdicts == old(self)@.verdicts,
            final(self)@.summaries == assigned(
                old(self)@.summaries,
                commit@,
                summary_text(verdicts.deep_view()),
            ),
    {
        let text = summary(verdicts);
        self.summaries.set(commit, text.as_str());
    }

    /// The summary that was last written for `commit`.
    pub fn summary_of(&self, commit: &str) -> (r: Option<&str>)
        ensures
            r.deep_view() == lookup(self@.summaries, commit@),
    {
        self.summaries.get(commit)
    }
}

} // verus!
