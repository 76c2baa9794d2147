//! Listing the tests that are defined.

use vstd::prelude::*;
use vstd::string::StringExecFns;
use crate::config::GitConfig;
use crate::error::GitTestError;
use crate::git::{
    listable, listed, listing_failure, GitRepository, GitTestCommand, GitTestCommandView,
};
use crate::log_util::{plain_line, Level, LogLine, LogLineView, Span, Style};

verus! {

/// The two messages that show one test: its name in bold before a colon,
/// then its command in green.
pub open spec fn test_lines(test: GitTestCommandView) -> Seq<LogLineView> {
    seq![
        LogLineView {
            level: Level::Info,
            spans: seq![(test.test_name, Style::Bold), (":"@, Style::Plain)],
        },
        LogLineView {
            level: Level::Info,
            spans: seq![("    command = "@, Style::Plain), (test.test_command, Style::Green)],
        },
    ]
}

/// The messages that show `tests`, in their order.
pub open spec fn tests_lines(tests: Seq<GitTestCommandView>) -> Seq<LogLineView>
    decreases tests.len(),
{
    if tests.len() == 0 {
        seq![]
    } else {
        tests_lines(tests.drop_last()) + test_lines(tests.last())
    }
}

/// What is logged for `tests`: a warning where there is none, else the
/// messages that show them.
pub open spec fn list_lines(tests: Seq<GitTestCommandView>) -> Seq<LogLineView> {
    if tests.len() == 0 {
        seq![plain_line(Level::Warn, "No tests defined."@)]
    } else {
        tests_lines(tests)
    }
}

/// The messages that list `tests`.
pub fn list_report(tests: &Vec<GitTestCommand>) -> (r: Vec<LogLine>)
    ensures
        r.deep_view() == list_lines(tests.deep_view()),
{
    let mut lines: Vec<LogLine> = Vec::new();
    if tests.len() == 0 {
        lines.push(LogLine::plain(Level::Warn, String::from_str("No tests defined.")));
        assert(lines.deep_view() == seq![plain_line(Level::Warn, "No tests defined."@)]);
        return lines;
    }
    let mut i: usize = 0;
    assert(tests.deep_view().subrange(0, 0) == Seq::<GitTestCommandView>::empty());
    assert(lines.deep_view() == Seq::<LogLineView>::empty());
    while i < tests.len()
        invariant
            i <= tests.len(),
            lines.deep_view() == tests_lines(tests.deep_view().subrange(0, i as int)),
        decreases tests.len() - i,
    {
        let ghost upto = tests.deep_view().subrange(0, i + 1);
        let ghost before = lines.deep_view();
        proof {
            assert(upto.drop_last() == tests.deep_view().subrange(0, i as int));
            assert(upto.last() == tests[i as int]@);
        }
        let mut head: Vec<Span> = Vec::new();
        head.push(Span { text: tests[i].test_name.clone(), style: Style::Bold });
        head.push(Span { text: String::from_str(":"), style: Style::Plain });
        assert(head.deep_view() == seq![(tests[i as int].test_name@, Style::Bold), (":"@, Style::Plain)]);
        lines.push(LogLine { level: Level::Info, spans: head });
        let mut body: Vec<Span> = Vec::new();
        body.push(Span { text: String::from_str("    command = "), style: Style::Plain });
        body.push(Span { text: tests[i].test_command.clone(), style: Style::Green });
        assert(body.deep_view() == seq![
            ("    command = "@, Style::Plain),
            (tests[i as int].test_command@, Style::Green),
        ]);
        lines.push(LogLine { level: Level::Info, spans: body });
        assert(lines.deep_view() == before + test_lines(tests[i as int]@));
        i += 1;
    }
    assert(tests.deep_view().subrange(0, i as int) == tests.deep_view());
    lines
}

/// The messages that list the tests that `config` defines for `repo`.
/// Fails as `GitRepository::list_tests` does.
pub fn cmd_list(repo: &GitRepository, config: &GitConfig) -> (r: Result<Vec<LogLine>, GitTestError>)
    ensures
        r is Ok <==> listable(repo@, config@),
        match r {
            Ok(lines) => listed(repo@, config@) matches Some(tests) && lines.deep_view()
                == list_lines(tests),
            Err(e) => e@ == listing_failure(),
        },
{
    match repo.list_tests(config) {
        Ok(tests) => Ok(list_report(&tests)),
        Err(e) => Err(e),
    }
}

} // verus!
