//! The state of a debugging session: the source lines, the breakpoints, the
//! flags for stepping and pausing, and the interpreter that runs the program.
//!
//! The debugger decides nothing about input and output: it hands out the lines
//! that a front end shows, and the steps of the interpreter.

use vstd::prelude::*;
use vstd::string::*;
use crate::ast::Program;
use crate::error::{
    optional_text, CompilerError, CompilerErrorView, DetailedError, DetailedErrorView, ErrorContext,
    ErrorContextView,
};
use crate::interpreter::Interpreter;
use crate::machine::{MachineModel, Outcome};
use crate::protocol::{Action, Reply, ReplyView, RuntimeError};
use crate::text::{
    chars_of, decimal_text, push_decimal, push_str, same_text, string_of, string_of_range, texts_of,
    trim_text, trimmed_of,
};
use crate::value::{lookup, Value};

verus! {

/// A place at which a run is to stop.
#[derive(Debug, Clone)]
pub struct Breakpoint {
    pub line: usize,
    pub condition: Option<String>,
    pub enabled: bool,
}

/// The mathematical content of a [`Breakpoint`].
pub struct BreakpointView {
    pub line: usize,
    pub condition: Option<Seq<char>>,
    pub enabled: bool,
}

impl View for Breakpoint {
    type V = BreakpointView;

    open spec fn view(&self) -> BreakpointView {
        BreakpointView {
            line: self.line,
            condition: optional_text(self.condition),
            enabled: self.enabled,
        }
    }
}

/// The contents of the breakpoints of `v`, in order.
pub open spec fn breakpoint_views(v: Seq<Breakpoint>) -> Seq<BreakpointView> {
    v.map_values(|b: Breakpoint| b@)
}

/// The breakpoints among the first `count` of `list` that are not at `line`.
pub open spec fn kept(list: Seq<BreakpointView>, line: usize, count: nat) -> Seq<BreakpointView>
    decreases count,
{
    if count == 0 || count > list.len() {
        Seq::empty()
    } else if list[count - 1].line != line {
        kept(list, line, (count - 1) as nat).push(list[count - 1])
    } else {
        kept(list, line, (count - 1) as nat)
    }
}

/// The position of the first breakpoint at `line` at or after `from`.
pub open spec fn first_at(list: Seq<BreakpointView>, line: usize, from: int) -> Option<int>
    decreases list.len() - from,
{
    if from < 0 || from >= list.len() {
        None
    } else if list[from].line == line {
        Some(from)
    } else {
        first_at(list, line, from + 1)
    }
}

/// `list` with the first breakpoint at `line` switched on or off.
pub open spec fn switched(
    list: Seq<BreakpointView>,
    line: usize,
    enabled: bool,
) -> Seq<BreakpointView> {
    match first_at(list, line, 0) {
        Some(i) => list.update(i, BreakpointView { enabled, ..list[i] }),
        None => list,
    }
}

/// The end of the line that starts at `from`: the position of the next line
/// feed, or the end of the text.
pub open spec fn line_end(s: Seq<char>, from: int) -> int
    decreases s.len() - from,
{
    if 0 <= from < s.len() && s[from] != '\n' {
        line_end(s, from + 1)
    } else {
        from
    }
}

/// The lines of `s` from position `from` on. A line ends with a line feed, or
/// with a carriage return and a line feed, neither of which belongs to it;
/// the last line may end with the text.
pub open spec fn lines_from(s: Seq<char>, from: int) -> Seq<Seq<char>>
    decreases s.len() - from,
{
    if from < 0 || from >= s.len() {
        Seq::empty()
    } else {
        let end = line_end(s, from);
        let text = if from < end < s.len() && s[end - 1] == '\r' {
            s.subrange(from, end - 1)
        } else {
            s.subrange(from, end)
        };
        if from <= end < s.len() {
            seq![text] + lines_from(s, end + 1)
        } else {
            seq![text]
        }
    }
}

/// One line of the list of breakpoints: its number, its line, whether it is
/// enabled, and its condition if it has one.
pub open spec fn breakpoint_line(number: nat, breakpoint: BreakpointView) -> Seq<char> {
    "  "@ + decimal_text(number) + ": line "@ + decimal_text(breakpoint.line as nat) + " ["@ + (
    if breakpoint.enabled {
        "enabled"@
    } else {
        "disabled"@
    }) + "]"@ + match breakpoint.condition {
        Some(condition) => " (condition: "@ + condition + ")"@,
        None => Seq::empty(),
    }
}

/// The list of breakpoints as it is shown: a heading and a line for each.
pub open spec fn breakpoint_listing(list: Seq<BreakpointView>) -> Seq<Seq<char>> {
    Seq::new(
        list.len() + 1,
        |i: int|
            if i == 0 {
                "Breakpoints:"@
            } else {
                breakpoint_line(i as nat, list[i - 1])
            },
    )
}

/// The stack of calls as it is shown: a heading and a line for each function,
/// the innermost marked with an arrow.
pub open spec fn call_stack_listing(stack: Seq<Seq<char>>) -> Seq<Seq<char>> {
    Seq::new(
        stack.len() + 1,
        |i: int|
            if i == 0 {
                "Call stack:"@
            } else {
                "  "@ + (if i == stack.len() {
                    "->"@
                } else {
                    "  "@
                }) + " "@ + stack[i - 1]
            },
    )
}

/// What the user of a debugging session asks for.
#[derive(Debug, Clone)]
pub enum DebugCommand {
    Step,
    Continue,
    List,
    Variables,
    Stack,
    Quit,
    /// A breakpoint at the given line.
    Break(usize),
    /// A breakpoint at something that is no line number.
    BadBreak,
    /// Anything else, as it was typed.
    Unknown(String),
}

/// The mathematical content of a [`DebugCommand`].
pub enum DebugCommandView {
    Step,
    Continue,
    List,
    Variables,
    Stack,
    Quit,
    Break(usize),
    BadBreak,
    Unknown(Seq<char>),
}

impl View for DebugCommand {
    type V = DebugCommandView;

    open spec fn view(&self) -> DebugCommandView {
        match self {
            DebugCommand::Step => DebugCommandView::Step,
            DebugCommand::Continue => DebugCommandView::Continue,
            DebugCommand::List => DebugCommandView::List,
            DebugCommand::Variables => DebugCommandView::Variables,
            DebugCommand::Stack => DebugCommandView::Stack,
            DebugCommand::Quit => DebugCommandView::Quit,
            DebugCommand::Break(line) => DebugCommandView::Break(*line),
            DebugCommand::BadBreak => DebugCommandView::BadBreak,
            DebugCommand::Unknown(text) => DebugCommandView::Unknown(text@),
        }
    }
}

/// The value of a decimal digit.
pub open spec fn digit_value(c: char) -> nat {
    (c as u32 - '0' as u32) as nat
}

/// The number that the first `count` of the digits denote.
pub open spec fn digits_value(digits: Seq<char>, count: nat) -> nat
    decreases count,
{
    if count == 0 || count > digits.len() {
        0
    } else {
        digits_value(digits, (count - 1) as nat) * 10 + digit_value(digits[count - 1])
    }
}

/// Whether all characters from `from` on are decimal digits.
pub open spec fn all_digits(text: Seq<char>, from: int) -> bool {
    forall|i: int| from <= i < text.len() ==> '0' <= #[trigger] text[i] <= '9'
}

/// The line number that `text` denotes: digits, after a plus sign or without
/// one, whose number is small enough to be held.
pub open spec fn line_number(text: Seq<char>) -> Option<usize> {
    let digits = if text.len() > 0 && text[0] == '+' {
        text.subrange(1, text.len() as int)
    } else {
        text
    };
    if digits.len() > 0 && all_digits(digits, 0) && digits_value(digits, digits.len())
        <= usize::MAX {
        Some(digits_value(digits, digits.len()) as usize)
    } else {
        None
    }
}

/// What the line that the user typed asks for. White space around it does not
/// count. `break` takes a line number after one space.
pub open spec fn command_of(input: Seq<char>) -> DebugCommandView {
    let text = trimmed_of(input);
    if text == "step"@ || text == "s"@ {
        DebugCommandView::Step
    } else if text == "continue"@ || text == "c"@ {
        DebugCommandView::Continue
    } else if text == "list"@ || text == "l"@ {
        DebugCommandView::List
    } else if text == "vars"@ || text == "v"@ {
        DebugCommandView::Variables
    } else if text == "stack"@ {
        DebugCommandView::Stack
    } else if text == "quit"@ || text == "q"@ {
        DebugCommandView::Quit
    } else if text.len() >= 6 && text.subrange(0, 6) == "break "@ {
        match line_number(text.subrange(6, text.len() as int)) {
            Some(line) => DebugCommandView::Break(line),
            None => DebugCommandView::BadBreak,
        }
    } else {
        DebugCommandView::Unknown(text)
    }
}

proof fn lemma_digits_value_grows(digits: Seq<char>, count: nat, more: nat)
    requires
        count <= more <= digits.len(),
    ensures
        digits_value(digits, count) <= digits_value(digits, more),
    decreases more,
{
    if count < more {
        lemma_digits_value_grows(digits, count, (more - 1) as nat);
    }
}

/// The line number that `chars[from..]` denotes.
fn parse_line_number(chars: &Vec<char>, from: usize) -> (found: Option<usize>)
    requires
        from <= chars.len(),
    ensures
        found == line_number(chars@.subrange(from as int, chars.len() as int)),
{
    let n = chars.len();
    let ghost text = chars@.subrange(from as int, n as int);
    let start = if from < n && chars[from] == '+' {
        from + 1
    } else {
        from
    };
    let ghost digits = chars@.subrange(start as int, n as int);
    assert(digits =~= if text.len() > 0 && text[0] == '+' {
        text.subrange(1, text.len() as int)
    } else {
        text
    });
    if start >= n {
        return None;
    }
    let mut value: usize = 0;
    let mut i = start;
    while i < n
        invariant
            start <= i <= n,
            n == chars.len(),
            from <= chars.len(),
            digits == chars@.subrange(start as int, n as int),
            text == chars@.subrange(from as int, n as int),
            digits == if text.len() > 0 && text[0] == '+' {
                text.subrange(1, text.len() as int)
            } else {
                text
            },
            forall|j: int| 0 <= j < i - start ==> '0' <= #[trigger] digits[j] <= '9',
            value == digits_value(digits, (i - start) as nat),
        decreases n - i,
    {
        let c = chars[i];
        if c < '0' || c > '9' {
            assert(digits[i - start] == c);
            return None;
        }
        assert(digits[i - start] == c);
        let d = (c as u32 - '0' as u32) as usize;
        if value > (usize::MAX - d) / 10 {
            proof {
                lemma_digits_value_grows(digits, (i - start + 1) as nat, digits.len());
                if all_digits(digits, 0) {
                    assert(digits_value(digits, (i - start + 1) as nat) > usize::MAX);
                }
            }
            return None;
        }
        value = value * 10 + d;
        i += 1;
    }
    Some(value)
}

/// Reads what the user typed.
pub fn parse_command(input: &str) -> (command: DebugCommand)
    ensures
        command@ == command_of(input@),
{
    let text = trim_text(input);
    let word = text.as_str();
    if same_text(word, "step") || same_text(word, "s") {
        DebugCommand::Step
    } else if same_text(word, "continue") || same_text(word, "c") {
        DebugCommand::Continue
    } else if same_text(word, "list") || same_text(word, "l") {
        DebugCommand::List
    } else if same_text(word, "vars") || same_text(word, "v") {
        DebugCommand::Variables
    } else if same_text(word, "stack") {
        DebugCommand::Stack
    } else if same_text(word, "quit") || same_text(word, "q") {
        DebugCommand::Quit
    } else {
        let chars = chars_of(word);
        if chars.len() >= 6 {
            let head = string_of_range(&chars, 0, 6);
            if same_text(head.as_str(), "break ") {
                return match parse_line_number(&chars, 6) {
                    Some(line) => DebugCommand::Break(line),
                    None => DebugCommand::BadBreak,
                };
            }
        }
        DebugCommand::Unknown(text)
    }
}

/// What a debugging session knows about the run.
pub struct DebugState {
    pub current_line: usize,
    pub current_function: Option<String>,
    pub call_stack: Vec<String>,
    pub breakpoints: Vec<Breakpoint>,
    pub is_stepping: bool,
    pub is_paused: bool,
}

/// A debugging session for one source text.
pub struct Debugger<'a> {
    interpreter: Interpreter<'a>,
    state: DebugState,
    source_lines: Vec<String>,
}

/// The lines of `source`.
pub fn split_lines(source: &str) -> (lines: Vec<String>)
    ensures
        texts_of(lines@) == lines_from(source@, 0),
{
    let chars = chars_of(source);
    let n = chars.len();
    let mut lines: Vec<String> = Vec::new();
    let mut from: usize = 0;
    assert(texts_of(lines@) =~= Seq::<Seq<char>>::empty());
    assert(Seq::<Seq<char>>::empty() + lines_from(chars@, 0) =~= lines_from(chars@, 0));
    while from < n
        invariant
            from <= n,
            n == chars.len(),
            lines_from(chars@, 0) == texts_of(lines@) + lines_from(chars@, from as int),
        decreases n - from,
    {
        let mut end = from;
        while end < n && chars[end] != '\n'
            invariant
                from <= end <= n,
                n == chars.len(),
                line_end(chars@, from as int) == line_end(chars@, end as int),
            decreases n - end,
        {
            end += 1;
        }
        let text = if from < end && end < n && chars[end - 1] == '\r' {
            string_of_range(&chars, from, end - 1)
        } else {
            string_of_range(&chars, from, end)
        };
        let ghost before = texts_of(lines@);
        lines.push(text);
        assert(texts_of(lines@) =~= before.push(text@));
        if end < n {
            assert(before + (seq![text@] + lines_from(chars@, end + 1)) =~= before.push(text@)
                + lines_from(chars@, end + 1));
            from = end + 1;
        } else {
            assert(before + seq![text@] =~= before.push(text@) + lines_from(chars@, n as int));
            from = n;
        }
    }
    assert(texts_of(lines@) + Seq::<Seq<char>>::empty() =~= texts_of(lines@));
    lines
}

impl<'a> Debugger<'a> {
    /// The lines of the source.
    pub closed spec fn lines(&self) -> Seq<Seq<char>> {
        texts_of(self.source_lines@)
    }

    /// The breakpoints, in the order in which they were added.
    pub closed spec fn breakpoints(&self) -> Seq<BreakpointView> {
        breakpoint_views(self.state.breakpoints@)
    }

    /// Whether the session runs step by step.
    pub closed spec fn stepping(&self) -> bool {
        self.state.is_stepping
    }

    /// Whether the session is paused.
    pub closed spec fn paused(&self) -> bool {
        self.state.is_paused
    }

    /// The line that the session is at, 0 before the first.
    pub closed spec fn current_line(&self) -> usize {
        self.state.current_line
    }

    /// The functions that are being called, outermost first.
    pub closed spec fn call_stack(&self) -> Seq<Seq<char>> {
        texts_of(self.state.call_stack@)
    }

    /// The machine of the interpreter that the session runs.
    pub closed spec fn machine(&self) -> MachineModel {
        self.interpreter@
    }

    /// Whether `other` differs from this session in nothing but the
    /// breakpoints.
    pub open spec fn same_but_breakpoints(&self, other: &Debugger<'a>) -> bool {
        &&& self.lines() == other.lines()
        &&& self.stepping() == other.stepping()
        &&& self.paused() == other.paused()
        &&& self.current_line() == other.current_line()
        &&& self.call_stack() == other.call_stack()
        &&& self.machine() == other.machine()
    }

    /// Starts a session for `source`.
    pub fn new(source: &str) -> (debugger: Self)
        ensures
            debugger.lines() == lines_from(source@, 0),
            debugger.breakpoints() == Seq::<BreakpointView>::empty(),
            !debugger.stepping(),
            !debugger.paused(),
            debugger.current_line() == 0,
            debugger.call_stack() == Seq::<Seq<char>>::empty(),
            debugger.machine() == (MachineModel {
                variables: Seq::empty(),
                functions: Seq::empty(),
                tasks: Seq::empty(),
                values: Seq::empty(),
            }),
    {
        let debugger = Self {
            interpreter: Interpreter::new(),
            state: DebugState {
                current_line: 0,
                current_function: None,
                call_stack: Vec::new(),
                breakpoints: Vec::new(),
                is_stepping: false,
                is_paused: false,
            },
            source_lines: split_lines(source),
        };
        assert(debugger.breakpoints() =~= Seq::<BreakpointView>::empty());
        assert(debugger.call_stack() =~= Seq::<Seq<char>>::empty());
        debugger
    }

    /// The number of lines of the source.
    pub fn line_count(&self) -> (n: usize)
        ensures
            n == self.lines().len(),
    {
        self.source_lines.len()
    }

    /// The number of breakpoints.
    pub fn breakpoint_count(&self) -> (n: usize)
        ensures
            n == self.breakpoints().len(),
    {
        self.state.breakpoints.len()
    }

    /// Adds an enabled breakpoint at `line`.
    pub fn add_breakpoint(&mut self, line: usize, condition: Option<String>)
        ensures
            final(self).same_but_breakpoints(old(self)),
            final(self).breakpoints() == old(self).breakpoints().push(
                BreakpointView { line, condition: optional_text(condition), enabled: true },
            ),
    {
        let ghost before = self.breakpoints();
        let breakpoint = Breakpoint { line, condition, enabled: true };
        self.state.breakpoints.push(breakpoint);
        assert(self.breakpoints() =~= before.push(breakpoint@));
    }

    /// Removes every breakpoint at `line`.
    pub fn remove_breakpoint(&mut self, line: usize)
        ensures
            final(self).same_but_breakpoints(old(self)),
            final(self).breakpoints() == kept(
                old(self).breakpoints(),
                line,
                old(self).breakpoints().len(),
            ),
    {
        let ghost before = self.breakpoints();
        let mut all: Vec<Breakpoint> = Vec::new();
        core::mem::swap(&mut all, &mut self.state.breakpoints);
        assert(breakpoint_views(all@) == before);
        let mut rest: Vec<Breakpoint> = Vec::new();
        assert(breakpoint_views(rest@) =~= Seq::<BreakpointView>::empty());
        let mut i: usize = 0;
        while i < all.len()
            invariant
                i <= all.len(),
                breakpoint_views(all@) == before,
                breakpoint_views(rest@) == kept(before, line, i as nat),
            decreases all.len() - i,
        {
            if all[i].line != line {
                let ghost so_far = breakpoint_views(rest@);
                let copy = Breakpoint {
                    line: all[i].line,
                    condition: all[i].condition.clone(),
                    enabled: all[i].enabled,
                };
                assert(copy@ == before[i as int]) by {
                    assert(breakpoint_views(all@)[i as int] == all[i as int]@);
                    match all[i as int].condition {
                        Some(c) => {},
                        None => {},
                    }
                }
                rest.push(copy);
                assert(breakpoint_views(rest@) =~= so_far.push(copy@));
            } else {
                assert(breakpoint_views(all@)[i as int] == all[i as int]@);
            }
            i += 1;
        }
        self.state.breakpoints = rest;
    }

    /// Switches the first breakpoint at `line` on or off.
    fn switch_breakpoint(&mut self, line: usize, enabled: bool)
        ensures
            final(self).same_but_breakpoints(old(self)),
            final(self).breakpoints() == switched(old(self).breakpoints(), line, enabled),
    {
        let ghost before = self.breakpoints();
        let mut i: usize = 0;
        while i < self.state.breakpoints.len()
            invariant
                i <= self.state.breakpoints.len(),
                self.breakpoints() == before,
                before == old(self).breakpoints(),
                self.same_but_breakpoints(old(self)),
                first_at(before, line, 0) == first_at(before, line, i as int),
            decreases self.state.breakpoints.len() - i,
        {
            assert(breakpoint_views(self.state.breakpoints@)[i as int]
                == self.state.breakpoints[i as int]@);
            if self.state.breakpoints[i].line == line {
                assert(before[i as int].line == line);
                assert(first_at(before, line, i as int) == Some(i as int));
                let updated = Breakpoint {
                    line: self.state.breakpoints[i].line,
                    condition: self.state.breakpoints[i].condition.clone(),
                    enabled,
                };
                assert(updated@ == (BreakpointView { enabled, ..before[i as int] })) by {
                    match self.state.breakpoints[i as int].condition {
                        Some(c) => {},
                        None => {},
                    }
                }
                self.state.breakpoints[i] = updated;
                assert(self.breakpoints() =~= before.update(i as int, updated@));
                return ;
            }
            i += 1;
        }
    }

    /// Enables the first breakpoint at `line`.
    pub fn enable_breakpoint(&mut self, line: usize)
        ensures
            final(self).same_but_breakpoints(old(self)),
            final(self).breakpoints() == switched(old(self).breakpoints(), line, true),
    {
        self.switch_breakpoint(line, true);
    }

    /// Disables the first breakpoint at `line`.
    pub fn disable_breakpoint(&mut self, line: usize)
        ensures
            final(self).same_but_breakpoints(old(self)),
            final(self).breakpoints() == switched(old(self).breakpoints(), line, false),
    {
        self.switch_breakpoint(line, false);
    }

    /// The list of breakpoints as it is shown.
    pub fn list_breakpoints(&self) -> (shown: Vec<String>)
        ensures
            texts_of(shown@) == breakpoint_listing(self.breakpoints()),
    {
        let mut shown: Vec<String> = Vec::new();
        shown.push(String::from_str("Breakpoints:"));
        let mut i: usize = 0;
        while i < self.state.breakpoints.len()
            invariant
                i <= self.state.breakpoints.len(),
                shown.len() == i + 1,
                shown[0]@ == "Breakpoints:"@,
                forall|j: int|
                    1 <= j <= i ==> shown[j]@ == breakpoint_line(
                        j as nat,
                        self.breakpoints()[j - 1],
                    ),
            decreases self.state.breakpoints.len() - i,
        {
            let breakpoint = &self.state.breakpoints[i];
            assert(self.breakpoints()[i as int] == breakpoint@);
            let mut text: Vec<char> = Vec::new();
            push_str("  ", &mut text);
            push_decimal(i + 1, &mut text);
            push_str(": line ", &mut text);
            push_decimal(breakpoint.line, &mut text);
            push_str(" [", &mut text);
            push_str(
                if breakpoint.enabled {
                    "enabled"
                } else {
                    "disabled"
                },
                &mut text,
            );
            push_str("]", &mut text);
            match &breakpoint.condition {
                Some(condition) => {
                    push_str(" (condition: ", &mut text);
                    push_str(condition.as_str(), &mut text);
                    push_str(")", &mut text);
                },
                None => {},
            }
            assert(text@ =~= breakpoint_line((i + 1) as nat, breakpoint@));
            shown.push(string_of(&text));
            i += 1;
        }
        assert(texts_of(shown@) =~= breakpoint_listing(self.breakpoints()));
        shown
    }

    /// The stack of calls as it is shown.
    pub fn show_call_stack(&self) -> (shown: Vec<String>)
        ensures
            texts_of(shown@) == call_stack_listing(self.call_stack()),
    {
        let n = self.state.call_stack.len();
        let mut shown: Vec<String> = Vec::new();
        shown.push(String::from_str("Call stack:"));
        let mut i: usize = 0;
        while i < n
            invariant
                i <= n,
                n == self.state.call_stack.len(),
                shown.len() == i + 1,
                shown[0]@ == "Call stack:"@,
                forall|j: int|
                    1 <= j <= i ==> shown[j]@ == call_stack_listing(self.call_stack())[j],
            decreases n - i,
        {
            let mut text = String::from_str("  ");
            text.append(
                if i + 1 == n {
                    "->"
                } else {
                    "  "
                },
            );
            text.append(" ");
            text.append(self.state.call_stack[i].as_str());
            assert(self.call_stack()[i as int] == self.state.call_stack[i as int]@);
            shown.push(text);
            i += 1;
        }
        assert(texts_of(shown@) =~= call_stack_listing(self.call_stack()));
        shown
    }

    /// The line that the session is at as it is shown, if it is at one.
    pub fn show_current_line(&self) -> (shown: Option<String>)
        ensures
            match shown {
                Some(text) => 0 < self.current_line() <= self.lines().len() && text@ == "  "@
                    + decimal_text(self.current_line() as nat) + " | "@ + self.lines()[
                    self.current_line() - 1],
                None => !(0 < self.current_line() <= self.lines().len()),
            },
    {
        let at = self.state.current_line;
        if at > 0 && at <= self.source_lines.len() {
            let mut text: Vec<char> = Vec::new();
            push_str("  ", &mut text);
            push_decimal(at, &mut text);
            push_str(" | ", &mut text);
            push_str(self.source_lines[at - 1].as_str(), &mut text);
            assert(self.lines()[at - 1] == self.source_lines[at - 1]@);
            assert(text@ =~= "  "@ + decimal_text(at as nat) + " | "@ + self.lines()[at - 1]);
            Some(string_of(&text))
        } else {
            None
        }
    }

    /// Starts to run `program` step by step.
    pub fn step_into(&mut self, program: &'a Program) -> (action: Action)
        ensures
            final(self).stepping(),
            !final(self).paused(),
            final(self).lines() == old(self).lines(),
            final(self).breakpoints() == old(self).breakpoints(),
            (Outcome { machine: final(self).machine(), action: action@ }) == old(
                self,
            ).machine().load(program@).step(ReplyView::Done),
    {
        self.state.is_stepping = true;
        self.state.is_paused = false;
        self.interpreter.interpret(program)
    }

    /// Starts to run `program` step by step, as [`Debugger::step_into`] does.
    pub fn step_over(&mut self, program: &'a Program) -> (action: Action)
        ensures
            final(self).stepping(),
            !final(self).paused(),
            final(self).lines() == old(self).lines(),
            final(self).breakpoints() == old(self).breakpoints(),
            (Outcome { machine: final(self).machine(), action: action@ }) == old(
                self,
            ).machine().load(program@).step(ReplyView::Done),
    {
        self.step_into(program)
    }

    /// Starts to run `program` without stopping.
    pub fn continue_execution(&mut self, program: &'a Program) -> (action: Action)
        ensures
            !final(self).stepping(),
            !final(self).paused(),
            final(self).lines() == old(self).lines(),
            final(self).breakpoints() == old(self).breakpoints(),
            (Outcome { machine: final(self).machine(), action: action@ }) == old(
                self,
            ).machine().load(program@).step(ReplyView::Done),
    {
        self.state.is_stepping = false;
        self.state.is_paused = false;
        self.interpreter.interpret(program)
    }

    /// Does the next step of the program that is running.
    pub fn resume(&mut self, reply: Reply) -> (action: Action)
        ensures
            final(self).stepping() == old(self).stepping(),
            final(self).paused() == old(self).paused(),
            final(self).lines() == old(self).lines(),
            final(self).breakpoints() == old(self).breakpoints(),
            (Outcome { machine: final(self).machine(), action: action@ }) == old(
                self,
            ).machine().step(reply@),
    {
        self.interpreter.step(reply)
    }

    /// Pauses the session.
    pub fn pause_execution(&mut self)
        ensures
            final(self).paused(),
            final(self).stepping() == old(self).stepping(),
            final(self).lines() == old(self).lines(),
            final(self).breakpoints() == old(self).breakpoints(),
            final(self).machine() == old(self).machine(),
    {
        self.state.is_paused = true;
    }

    /// A copy of the value of the variable `name`, if it is bound.
    pub fn inspect_variable(&self, name: &str) -> (found: Option<Value>)
        ensures
            match lookup(self.machine().variables, name@) {
                Some(value) => found matches Some(v) && v@ == value,
                None => found is None,
            },
    {
        self.interpreter.variable(name)
    }

    /// A copy of all variables, in the order in which their names were first
    /// bound.
    pub fn list_variables(&self) -> (all: Vec<(String, Value)>)
        ensures
            crate::value::entry_models(all) == self.machine().variables,
    {
        self.interpreter.variables()
    }

    /// A failure of the run as it is reported: with the line that the session
    /// is at, and the text of that line if there is one.
    pub fn report(&self, error: &RuntimeError) -> (reported: DetailedError)
        ensures
            reported@ == (DetailedErrorView {
                error: CompilerErrorView::RuntimeError {
                    message: error@.display_text(),
                    line: self.current_line(),
                    column: 0,
                },
                context: Some(
                    ErrorContextView {
                        file_path: None,
                        source_line: if 0 < self.current_line() <= self.lines().len() {
                            self.lines()[self.current_line() - 1]
                        } else {
                            Seq::empty()
                        },
                        suggestion: None,
                        help: None,
                    },
                ),
            }),
    {
        let at = self.state.current_line;
        let line = if at > 0 && at <= self.source_lines.len() {
            assert(self.lines()[at - 1] == self.source_lines[at - 1]@);
            self.source_lines[at - 1].clone()
        } else {
            String::new()
        };
        DetailedError::new(
            CompilerError::RuntimeError { message: error.to_display_string(), line: at, column: 0 },
        ).with_context(ErrorContext::new(line))
    }
}

} // verus!
