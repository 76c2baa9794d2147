//! What is to be logged, and how much of it a run shows.

use vstd::prelude::*;
use vstd::string::StringExecFns;
use crate::command::{Invocation, InvocationView, Output};
use crate::text::contains_char;

verus! {

/// How grave a message is.
#[derive(Clone, Copy, Debug, PartialEq, Eq, Structural)]
pub enum Level {
    Error,
    Warn,
    Info,
    Debug,
    Trace,
}

/// How a piece of a message is set off where colours are shown.
#[derive(Clone, Copy, Debug, PartialEq, Eq, Structural)]
pub enum Style {
    Plain,
    Bold,
    Green,
    Dimmed,
    Red,
}

/// When colours are shown.
#[derive(Clone, Copy, Debug, PartialEq, Eq, Structural)]
pub enum ColorChoice {
    Auto,
    Always,
    Never,
}

/// A piece of a message in one style.
#[derive(Debug, PartialEq, Eq)]
pub struct Span {
    pub text: String,
    pub style: Style,
}

impl View for Span {
    type V = (Seq<char>, Style);

    open spec fn view(&self) -> (Seq<char>, Style) {
        (self.text@, self.style)
    }
}

impl DeepView for Span {
    type V = (Seq<char>, Style);

    open spec fn deep_view(&self) -> (Seq<char>, Style) {
        self@
    }
}

/// One message of a level, made of pieces that follow each other without
/// anything between them.
#[derive(Debug, PartialEq, Eq)]
pub struct LogLine {
    pub level: Level,
    pub spans: Vec<Span>,
}

pub struct LogLineView {
    pub level: Level,
    pub spans: Seq<(Seq<char>, Style)>,
}

impl View for LogLine {
    type V = LogLineView;

    open spec fn view(&self) -> LogLineView {
        LogLineView { level: self.level, spans: self.spans.deep_view() }
    }
}

impl DeepView for LogLine {
    type V = LogLineView;

    open spec fn deep_view(&self) -> LogLineView {
        self@
    }
}

/// The message `words` of level `level`, in one plain piece.
pub open spec fn plain_line(level: Level, words: Seq<char>) -> LogLineView {
    LogLineView { level, spans: seq![(words, Style::Plain)] }
}

/// The words of the pieces `spans`, one after the other.
pub open spec fn spans_text(spans: Seq<(Seq<char>, Style)>) -> Seq<char>
    decreases spans.len(),
{
    if spans.len() == 0 {
        seq![]
    } else {
        spans_text(spans.drop_last()) + spans.last().0
    }
}

/// The name under which a level is printed.
pub open spec fn level_name(level: Level) -> Seq<char> {
    match level {
        Level::Error => "ERROR"@,
        Level::Warn => "WARN"@,
        Level::Info => "INFO"@,
        Level::Debug => "DEBUG"@,
        Level::Trace => "TRACE"@,
    }
}

/// The place of a level among the levels, the gravest first.
pub open spec fn level_rank(level: Level) -> int {
    match level {
        Level::Error => 1,
        Level::Warn => 2,
        Level::Info => 3,
        Level::Debug => 4,
        Level::Trace => 5,
    }
}

impl Level {
    /// The name under which the level is printed.
    pub fn name(&self) -> (r: &'static str)
        ensures
            r@ == level_name(*self),
    {
        match self {
            Level::Error => "ERROR",
            Level::Warn => "WARN",
            Level::Info => "INFO",
            Level::Debug => "DEBUG",
            Level::Trace => "TRACE",
        }
    }

    /// The place of the level among the levels, the gravest first.
    pub fn rank(&self) -> (r: u8)
        ensures
            r == level_rank(*self),
    {
        match self {
            Level::Error => 1,
            Level::Warn => 2,
            Level::Info => 3,
            Level::Debug => 4,
            Level::Trace => 5,
        }
    }

    /// Whether a run that shows messages up to `most` shows this level.
    pub fn shown_at(&self, most: Level) -> (r: bool)
        ensures
            r == (level_rank(*self) <= level_rank(most)),
    {
        self.rank() <= most.rank()
    }
}

impl LogLine {
    /// The message `words` of level `level`, in one plain piece.
    pub fn plain(level: Level, words: String) -> (r: LogLine)
        ensures
            r@ == plain_line(level, words@),
    {
        let mut spans: Vec<Span> = Vec::new();
        spans.push(Span { text: words, style: Style::Plain });
        assert(spans.deep_view() == seq![(words@, Style::Plain)]);
        LogLine { level, spans }
    }

    /// The words of the message, without their styles.
    pub fn message(&self) -> (r: String)
        ensures
            r@ == spans_text(self@.spans),
    {
        let mut text = String::new();
        let mut i: usize = 0;
        assert(self.spans.deep_view().subrange(0, 0) == Seq::<(Seq<char>, Style)>::empty());
        while i < self.spans.len()
            invariant
                i <= self.spans.len(),
                text@ == spans_text(self.spans.deep_view().subrange(0, i as int)),
            decreases self.spans.len() - i,
        {
            proof {
                let upto = self.spans.deep_view().subrange(0, i + 1);
                assert(upto.drop_last() == self.spans.deep_view().subrange(0, i as int));
                assert(upto.last() == self.spans[i as int]@);
            }
            text.append(self.spans[i].text.as_str());
            i += 1;
        }
        assert(self.spans.deep_view().subrange(0, i as int) == self.spans.deep_view());
        text
    }

    /// The message after the name of its level: `LEVEL - words`.
    pub fn render(&self) -> (r: String)
        ensures
            r@ == level_name(self.level) + " - "@ + spans_text(self@.spans),
    {
        let mut text = String::from_str(self.level.name());
        text.append(" - ");
        let words = self.message();
        text.append(words.as_str());
        text
    }
}

/// The least grave level that a run of the verbosity `verbosity` shows.
pub open spec fn level_for(verbosity: int) -> Level {
    if verbosity <= -2 {
        Level::Error
    } else if verbosity == -1 {
        Level::Warn
    } else if verbosity == 0 {
        Level::Info
    } else if verbosity == 1 {
        Level::Debug
    } else {
        Level::Trace
    }
}

/// Whether colours are shown, for a choice and for whether the output goes
/// to a terminal.
pub open spec fn colours_shown(choice: ColorChoice, terminal: bool) -> bool {
    match choice {
        ColorChoice::Auto => terminal,
        ColorChoice::Always => true,
        ColorChoice::Never => false,
    }
}

/// The verbosity that `verbose` requests for more and `quiet` requests for
/// less come to: their difference, kept within the range of `i8`.
pub open spec fn verbosity_of(verbose: u8, quiet: u8) -> int {
    let d = verbose as int - quiet as int;
    if d > 127 {
        127
    } else if d < -128 {
        -128
    } else {
        d
    }
}

/// The verbosity of a run.
pub fn verbosity(verbose: u8, quiet: u8) -> (r: i8)
    ensures
        r == verbosity_of(verbose, quiet),
{
    if verbose >= quiet {
        let d: u8 = verbose - quiet;
        if d > 127 {
            127
        } else {
            d as i8
        }
    } else {
        let d: u8 = quiet - verbose;
        if d >= 128 {
            -128
        } else {
            -(d as i8)
        }
    }
}

/// How the logger of a run is set up.
#[derive(Clone, Copy, Debug, PartialEq, Eq, Structural)]
pub struct LogSetup {
    /// The least grave level that is shown.
    pub level: Level,
    /// Whether each message is printed with its time, level and origin, and
    /// not as its bare words.
    pub detailed: bool,
    /// Whether colours are shown.
    pub colorize: bool,
}

/// The setup of the logger for a verbosity and a colour choice; `terminal`
/// says whether the output goes to a terminal.
pub fn init_logging(verbosity: i8, choice: ColorChoice, terminal: bool) -> (r: LogSetup)
    ensures
        r == (LogSetup {
            level: level_for(verbosity as int),
            detailed: verbosity >= 3,
            colorize: colours_shown(choice, terminal),
        }),
{
    let level = if verbosity <= -2 {
        Level::Error
    } else if verbosity == -1 {
        Level::Warn
    } else if verbosity == 0 {
        Level::Info
    } else if verbosity == 1 {
        Level::Debug
    } else {
        Level::Trace
    };
    let colorize = match choice {
        ColorChoice::Auto => terminal,
        ColorChoice::Always => true,
        ColorChoice::Never => false,
    };
    LogSetup { level, detailed: verbosity >= 3, colorize }
}

/// An argument as it is shown: between single quotes where it holds a
/// blank.
pub open spec fn shown_argument(argument: Seq<char>) -> Seq<char> {
    if argument.contains(' ') {
        "'"@ + argument + "'"@
    } else {
        argument
    }
}

/// The arguments `args` as they are shown, with a blank between two of
/// them.
pub open spec fn shown_arguments(args: Seq<Seq<char>>) -> Seq<char>
    decreases args.len(),
{
    if args.len() == 0 {
        seq![]
    } else if args.len() == 1 {
        shown_argument(args[0])
    } else {
        shown_arguments(args.drop_last()) + " "@ + shown_argument(args.last())
    }
}

/// An invocation as it is shown: the program, a blank, the arguments.
pub open spec fn shown_command(invocation: InvocationView) -> Seq<char> {
    invocation.program + " "@ + shown_arguments(invocation.args)
}

/// The message that announces an invocation: a green prompt, then the
/// command.
pub open spec fn announcement(invocation: InvocationView) -> LogLineView {
    LogLineView {
        level: Level::Debug,
        spans: seq![("❯"@, Style::Green), (" "@ + shown_command(invocation), Style::Plain)],
    }
}

/// The messages that show what a program wrote: its output dimmed, then
/// its errors in red, each only where there is any.
pub open spec fn output_report(stdout: Seq<char>, stderr: Seq<char>) -> Seq<LogLineView> {
    let first = if stdout.len() > 0 {
        seq![LogLineView { level: Level::Debug, spans: seq![(stdout, Style::Dimmed)] }]
    } else {
        seq![]
    };
    let second = if stderr.len() > 0 {
        seq![LogLineView { level: Level::Debug, spans: seq![(stderr, Style::Red)] }]
    } else {
        seq![]
    };
    first + second
}

/// `invocation` as one line of text.
pub fn command_line(invocation: &Invocation) -> (r: String)
    ensures
        r@ == shown_command(invocation@),
{
    let mut text = String::from_str(invocation.program.as_str());
    text.append(" ");
    let ghost head = text@;
    let mut i: usize = 0;
    assert(invocation.args.deep_view().subrange(0, 0) == Seq::<Seq<char>>::empty());
    assert(text@ == head + shown_arguments(invocation.args.deep_view().subrange(0, 0)));
    while i < invocation.args.len()
        invariant
            i <= invocation.args.len(),
            text@ == head + shown_arguments(invocation.args.deep_view().subrange(0, i as int)),
        decreases invocation.args.len() - i,
    {
        let ghost upto = invocation.args.deep_view().subrange(0, i + 1);
        let ghost before = text@;
        proof {
            assert(upto.drop_last() == invocation.args.deep_view().subrange(0, i as int));
            assert(upto.last() == invocation.args[i as int]@);
            if i == 0 {
                assert(upto[0] == invocation.args[0]@);
                assert(shown_arguments(upto.drop_last()) == Seq::<char>::empty());
                assert(before == head);
            }
        }
        if i > 0 {
            text.append(" ");
        }
        let argument = invocation.args[i].as_str();
        if contains_char(argument, ' ') {
            text.append("'");
            text.append(argument);
            text.append("'");
        } else {
            text.append(argument);
        }
        proof {
            if i == 0 {
                assert(text@ == head + shown_argument(upto[0]));
            } else {
                assert(text@ == head + (shown_arguments(upto.drop_last()) + " "@ + shown_argument(
                    upto.last(),
                )));
            }
        }
        i += 1;
    }
    assert(invocation.args.deep_view().subrange(0, i as int) == invocation.args.deep_view());
    text
}

/// The message that announces `invocation` before it is run.
pub fn log_command(invocation: &Invocation) -> (r: LogLine)
    ensures
        r@ == announcement(invocation@),
{
    let mut words = String::from_str(" ");
    let line = command_line(invocation);
    words.append(line.as_str());
    let mut spans: Vec<Span> = Vec::new();
    spans.push(Span { text: String::from_str("❯"), style: Style::Green });
    spans.push(Span { text: words, style: Style::Plain });
    assert(spans.deep_view() == seq![
        ("❯"@, Style::Green),
        (" "@ + shown_command(invocation@), Style::Plain),
    ]);
    LogLine { level: Level::Debug, spans }
}

/// The messages that show what a program wrote, after it has ended.
pub fn log_output(output: &Output) -> (r: Vec<LogLine>)
    ensures
        r.deep_view() == output_report(output.stdout@, output.stderr@),
{
    let mut lines: Vec<LogLine> = Vec::new();
    assert(lines.deep_view() == Seq::<LogLineView>::empty());
    if !output.stdout.as_str().is_empty() {
        let mut spans: Vec<Span> = Vec::new();
        spans.push(Span { text: output.stdout.clone(), style: Style::Dimmed });
        assert(spans.deep_view() == seq![(output.stdout@, Style::Dimmed)]);
        lines.push(LogLine { level: Level::Debug, spans });
    }
    let ghost first = lines.deep_view();
    assert(first == if output.stdout@.len() > 0 {
        seq![LogLineView { level: Level::Debug, spans: seq![(output.stdout@, Style::Dimmed)] }]
    } else {
        seq![]
    });
    if !output.stderr.as_str().is_empty() {
        let mut spans: Vec<Span> = Vec::new();
        spans.push(Span { text: output.stderr.clone(), style: Style::Red });
        assert(spans.deep_view() == seq![(output.stderr@, Style::Red)]);
        lines.push(LogLine { level: Level::Debug, spans });
        assert(lines.deep_view() == first + seq![
            LogLineView { level: Level::Debug, spans: seq![(output.stderr@, Style::Red)] },
        ]);
    } else {
        assert(lines.deep_view() == first + Seq::<LogLineView>::empty());
    }
    lines
}

} // verus!
