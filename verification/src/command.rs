//! What the library asks its caller to run: a program with its arguments,
//! or a change to the file system.

use vstd::prelude::*;
use vstd::string::StringExecFns;

verus! {

/// One program to run, with the directory to run it in, if any is set.
/// The environment is the caller's.
#[derive(Debug, PartialEq, Eq)]
pub struct Invocation {
    pub program: String,
    pub args: Vec<String>,
    pub dir: Option<String>,
}

pub struct InvocationView {
    pub program: Seq<char>,
    pub args: Seq<Seq<char>>,
    pub dir: Option<Seq<char>>,
}

impl View for Invocation {
    type V = InvocationView;

    open spec fn view(&self) -> InvocationView {
        InvocationView {
            program: self.program@,
            args: self.args.deep_view(),
            dir: self.dir.deep_view(),
        }
    }
}

impl DeepView for Invocation {
    type V = InvocationView;

    open spec fn deep_view(&self) -> InvocationView {
        self@
    }
}

/// One step that the caller performs for the library.
#[derive(Debug, PartialEq, Eq)]
pub enum Operation {
    /// Make the directory `path` and every missing directory above it.
    CreateDirAll { path: String },
    /// Run a program and wait for it.
    Run(Invocation),
}

pub enum OperationView {
    CreateDirAll { path: Seq<char> },
    Run(InvocationView),
}

impl View for Operation {
    type V = OperationView;

    open spec fn view(&self) -> OperationView {
        match self {
            Operation::CreateDirAll { path } => OperationView::CreateDirAll { path: path@ },
            Operation::Run(invocation) => OperationView::Run(invocation@),
        }
    }
}

impl DeepView for Operation {
    type V = OperationView;

    open spec fn deep_view(&self) -> OperationView {
        self@
    }
}

/// The invocation `git -C root args..`.
pub open spec fn git_invocation(root: Seq<char>, args: Seq<Seq<char>>) -> InvocationView {
    InvocationView { program: "git"@, args: seq!["-C"@, root] + args, dir: None }
}

/// The invocation `sh -c command`, run in `dir`.
pub open spec fn shell_invocation(command: Seq<char>, dir: Seq<char>) -> InvocationView {
    InvocationView { program: "sh"@, args: seq!["-c"@, command], dir: Some(dir) }
}

/// The arguments that an invocation gives besides the repository to act
/// on: those after `-C root` where it starts so, else all of them.
pub open spec fn given_arguments(invocation: InvocationView) -> Seq<Seq<char>> {
    if invocation.args.len() >= 2 && invocation.args[0] == "-C"@ {
        invocation.args.subrange(2, invocation.args.len() as int)
    } else {
        invocation.args
    }
}

/// The arguments that `invocation` gives besides the repository to act on.
pub fn git_arguments(invocation: &Invocation) -> (r: Vec<String>)
    ensures
        r.deep_view() == given_arguments(invocation@),
{
    let n = invocation.args.len();
    let mut i: usize = if n >= 2 && crate::text::equal(invocation.args[0].as_str(), "-C") {
        2
    } else {
        0
    };
    let ghost start = i;
    let mut out: Vec<String> = Vec::new();
    while i < n
        invariant
            n == invocation.args.len(),
            start <= i <= n,
            out.len() == i - start,
            forall|j: int| 0 <= j < out.len() ==> (#[trigger] out[j])@ == invocation.args[start + j]@,
        decreases n - i,
    {
        out.push(invocation.args[i].clone());
        i += 1;
    }
    assert(out.deep_view() =~= invocation.args.deep_view().subrange(start as int, n as int));
    assert(invocation.args.deep_view().subrange(0, n as int) == invocation.args.deep_view());
    out
}

/// `git -C root args..`: `git` acting on the repository at `root`.
pub fn git(root: &str, args: Vec<String>) -> (r: Invocation)
    ensures
        r@ == git_invocation(root@, args.deep_view()),
        given_arguments(r@) == args.deep_view(),
{
    let mut args = args;
    let ghost given = args.deep_view();
    let mut all: Vec<String> = Vec::new();
    all.push(String::from_str("-C"));
    all.push(String::from_str(root));
    all.append(&mut args);
    assert(all.deep_view() =~= seq!["-C"@, root@] + given);
    assert((seq!["-C"@, root@] + given).subrange(2, 2 + given.len() as int) =~= given);
    Invocation { program: String::from_str("git"), args: all, dir: None }
}

/// `sh -c command` in the directory `dir`.
pub fn shell(command: &str, dir: &str) -> (r: Invocation)
    ensures
        r@ == shell_invocation(command@, dir@),
{
    let mut args: Vec<String> = Vec::new();
    args.push(String::from_str("-c"));
    args.push(String::from_str(command));
    assert(args.deep_view() =~= seq!["-c"@, command@]);
    Invocation { program: String::from_str("sh"), args, dir: Some(String::from_str(dir)) }
}

/// What a program left behind when it ended: whether it reported success,
/// and what it wrote.
#[derive(Debug, PartialEq, Eq)]
pub struct Output {
    pub success: bool,
    pub stdout: String,
    pub stderr: String,
}

} // verus!
