//! Diagnostics: what went wrong, where in the source text, and in which
//! frame; and how a diagnostic is written out.

use crate::context::{linked, Context, ContextView};
use crate::floats::{FloatRequest, FloatRequestView};
use crate::position::{clone_position, view_opt, Position, PositionView};
use crate::text::{chars_of, int_text, push_char, push_int, push_text};
use vstd::prelude::*;

verus! {

/// `n` copies of the character `c`; none where `n` is not positive.
pub open spec fn marks(n: int, c: char) -> Seq<char> {
    Seq::new(
        if n > 0 {
            n as nat
        } else {
            0
        },
        |i: int| c,
    )
}

/// Where the line begins that holds the offset `at`: after the last newline
/// before `at`, or at the start of the text.
pub open spec fn line_begin(text: Seq<char>, at: int) -> int
    decreases at,
{
    if at <= 0 || at > text.len() {
        0
    } else if text[at - 1] == '\n' {
        at
    } else {
        line_begin(text, at - 1)
    }
}

/// Where the line ends that holds the offset `at`: at the first newline
/// from `at` on, or at the end of the text.
pub open spec fn line_end(text: Seq<char>, at: int) -> int
    decreases text.len() - at,
{
    if at < 0 || at >= text.len() {
        text.len() as int
    } else if text[at] == '\n' {
        at
    } else {
        line_end(text, at + 1)
    }
}

/// The source lines from the `k`-th line of a span of `count` lines on,
/// where that line begins at offset `begin`. Each line is followed by a
/// line of markers under the part of it that the span covers: from
/// `first_column` on the first line of the span, up to `last_column` on
/// its last line, and under the whole line between them.
pub open spec fn excerpt(
    text: Seq<char>,
    begin: int,
    k: int,
    count: int,
    first_column: int,
    last_column: int,
) -> Seq<char>
    decreases count - k,
{
    if k >= count || begin < 0 || begin > text.len() {
        Seq::empty()
    } else {
        let end = line_end(text, begin);
        let line = text.subrange(begin, end);
        let from = if k == 0 {
            first_column
        } else {
            0
        };
        let to = if k == count - 1 {
            last_column
        } else {
            line.len() as int
        };
        let marked = line.push('\n') + marks(from, ' ') + marks(to - from, '^');
        if k + 1 < count && end < text.len() {
            marked.push('\n') + excerpt(text, end + 1, k + 1, count, first_column, last_column)
        } else {
            marked
        }
    }
}

/// The text without its tab characters.
pub open spec fn without_tabs(s: Seq<char>) -> Seq<char>
    decreases s.len(),
{
    if s.len() == 0 {
        Seq::empty()
    } else if s.last() == '\t' {
        without_tabs(s.drop_last())
    } else {
        without_tabs(s.drop_last()).push(s.last())
    }
}

/// The offset of a position within its text, brought into the text's range.
pub open spec fn offset_within(p: PositionView) -> int {
    if p.index < 0 {
        0
    } else if p.index > p.file_text.len() {
        p.file_text.len() as int
    } else {
        p.index
    }
}

/// The source excerpt for a span, with markers under the columns from that
/// of `start` up to that of `end`; without an end the span is empty and
/// ends where it starts. Tabs are left out. Without a start there is no
/// excerpt.
pub open spec fn arrows(start: Option<PositionView>, end: Option<PositionView>) -> Seq<char> {
    match start {
        None => Seq::empty(),
        Some(s) => {
            let e = match end {
                Some(e) => e,
                None => s,
            };
            without_tabs(
                excerpt(
                    s.file_text,
                    line_begin(s.file_text, offset_within(s)),
                    0,
                    e.line - s.line + 1,
                    s.column,
                    e.column,
                ),
            )
        },
    }
}

/// Appends `n` copies of `c` to `out`.
fn push_marks(out: &mut Vec<char>, n: i128, c: char)
    ensures
        final(out)@ == old(out)@ + marks(n as int, c),
{
    let mut i: i128 = 0;
    assert(out@ =~= old(out)@ + marks(0, c));
    while i < n
        invariant
            0 <= i,
            i <= n || (n < 0 && i == 0),
            out@ == old(out)@ + marks(i as int, c),
        decreases n - i,
    {
        out.push(c);
        i += 1;
        assert(out@ =~= old(out)@ + marks(i as int, c));
    }
    assert(marks(i as int, c) =~= marks(n as int, c));
}

/// The characters of `v` without the tabs.
fn strip_tabs(v: &Vec<char>) -> (r: String)
    ensures
        r@ == without_tabs(v@),
{
    let mut out = String::new();
    let mut i: usize = 0;
    while i < v.len()
        invariant
            i <= v.len(),
            out@ == without_tabs(v@.subrange(0, i as int)),
        decreases v.len() - i,
    {
        proof {
            let next = v@.subrange(0, i + 1);
            assert(next.drop_last() == v@.subrange(0, i as int));
            assert(next.last() == v@[i as int]);
        }
        if v[i] != '\t' {
            push_char(&mut out, v[i]);
        }
        i += 1;
    }
    assert(v@.subrange(0, v.len() as int) == v@);
    out
}

/// Writes out the source excerpt for a span, as [`arrows`] describes.
pub fn string_with_arrows(pos_start: &Option<Position>, pos_end: &Option<Position>) -> (r:
    String)
    ensures
        r@ == arrows(view_opt(*pos_start), view_opt(*pos_end)),
{
    let start = match pos_start {
        Some(p) => p,
        None => {
            return String::new();
        },
    };
    let end = match pos_end {
        Some(p) => p,
        None => start,
    };
    let text = chars_of(start.file_text.as_str());
    let n: usize = text.len();
    let at: usize = if start.index < 0 {
        0
    } else if (start.index as u64) > (n as u64) {
        n
    } else {
        start.index as usize
    };
    let mut begin: usize = at;
    while begin > 0 && text[begin - 1] != '\n'
        invariant
            begin <= at <= n,
            n == text@.len(),
            line_begin(text@, at as int) == line_begin(text@, begin as int),
        decreases begin,
    {
        begin -= 1;
    }
    let count: i128 = end.line as i128 - start.line as i128 + 1;
    let first_column: i128 = start.column as i128;
    let last_column: i128 = end.column as i128;
    let ghost whole = excerpt(
        text@,
        begin as int,
        0,
        count as int,
        first_column as int,
        last_column as int,
    );
    let mut out: Vec<char> = Vec::new();
    let mut k: i128 = 0;
    let mut finished: bool = false;
    assert(whole =~= out@ + whole);
    while k < count && !finished
        invariant
            0 <= k,
            begin <= n,
            n == text@.len(),
            i64::MIN <= first_column <= i64::MAX,
            i64::MIN <= last_column <= i64::MAX,
            whole == out@ + (if finished {
                Seq::<char>::empty()
            } else {
                excerpt(
                    text@,
                    begin as int,
                    k as int,
                    count as int,
                    first_column as int,
                    last_column as int,
                )
            }),
        decreases count - k,
    {
        let ghost before = out@;
        let ghost rest = excerpt(
            text@,
            begin as int,
            k as int,
            count as int,
            first_column as int,
            last_column as int,
        );
        let mut end_of_line: usize = begin;
        while end_of_line < n && text[end_of_line] != '\n'
            invariant
                begin <= end_of_line <= n,
                n == text@.len(),
                line_end(text@, begin as int) == line_end(text@, end_of_line as int),
            decreases n - end_of_line,
        {
            end_of_line += 1;
        }
        let mut j: usize = begin;
        while j < end_of_line
            invariant
                begin <= j <= end_of_line <= n,
                n == text@.len(),
                out@ == before + text@.subrange(begin as int, j as int),
            decreases end_of_line - j,
        {
            out.push(text[j]);
            j += 1;
            assert(text@.subrange(begin as int, j as int) == text@.subrange(
                begin as int,
                j - 1,
            ).push(text@[j - 1]));
        }
        out.push('\n');
        let from: i128 = if k == 0 {
            first_column
        } else {
            0
        };
        let to: i128 = if k == count - 1 {
            last_column
        } else {
            (end_of_line - begin) as i128
        };
        push_marks(&mut out, from, ' ');
        push_marks(&mut out, to - from, '^');
        let ghost line = text@.subrange(begin as int, end_of_line as int);
        let ghost marked = line.push('\n') + marks(from as int, ' ') + marks(
            (to - from) as int,
            '^',
        );
        assert(out@ =~= before + marked);
        if k + 1 < count && end_of_line < n {
            out.push('\n');
            begin = end_of_line + 1;
            proof {
                let tail = excerpt(
                    text@,
                    begin as int,
                    k + 1,
                    count as int,
                    first_column as int,
                    last_column as int,
                );
                assert(rest == marked.push('\n') + tail);
                assert(whole =~= out@ + tail);
            }
        } else {
            finished = true;
            assert(rest == marked);
            assert(whole =~= out@ + Seq::<char>::empty());
        }
        k += 1;
    }
    proof {
        if !finished {
            assert(excerpt(
                text@,
                begin as int,
                k as int,
                count as int,
                first_column as int,
                last_column as int,
            ) =~= Seq::<char>::empty());
        }
        assert(whole =~= out@);
    }
    strip_tabs(&out)
}

/// What every diagnostic holds: the span it is about, the name of its kind
/// and a message.
#[derive(Debug)]
pub struct Error {
    pub pos_begin: Option<Position>,
    pub pos_end: Option<Position>,
    pub error_name: String,
    pub error_message: String,
}

/// The mathematical value of an [`Error`].
pub ghost struct ErrorView {
    pub start: Option<PositionView>,
    pub end: Option<PositionView>,
    pub name: Seq<char>,
    pub message: Seq<char>,
}

impl View for Error {
    type V = ErrorView;

    open spec fn view(&self) -> ErrorView {
        ErrorView {
            start: view_opt(self.pos_begin),
            end: view_opt(self.pos_end),
            name: self.error_name@,
            message: self.error_message@,
        }
    }
}

/// The first line of a written diagnostic: kind, message, file, line
/// (counted from one) and column. Without a start, the file is unknown and
/// line and column are `-1`.
pub open spec fn headline(e: ErrorView) -> Seq<char> {
    match e.start {
        Some(p) => e.name + ": "@ + e.message + ", File "@ + p.file_name + ", line "@ + int_text(
            p.line + 1,
        ) + ", col "@ + int_text(p.column),
        None => e.name + ": "@ + e.message + ", File "@ + "Unknown File"@ + ", line "@
            + int_text(-1) + ", col "@ + int_text(-1),
    }
}

/// A written diagnostic: the headline, an empty line, and the source
/// excerpt with its markers.
pub open spec fn error_text(e: ErrorView) -> Seq<char> {
    headline(e) + "\n\n"@ + arrows(e.start, e.end)
}

impl Clone for Error {
    fn clone(&self) -> (r: Self)
        ensures
            r == *self,
    {
        Error {
            pos_begin: clone_position(&self.pos_begin),
            pos_end: clone_position(&self.pos_end),
            error_name: self.error_name.clone(),
            error_message: self.error_message.clone(),
        }
    }
}

impl Error {
    /// A diagnostic of the kind `error_name` for the span and message given.
    pub fn new(
        pos_begin: Option<Position>,
        pos_end: Option<Position>,
        error_name: String,
        error_message: String,
    ) -> (r: Self)
        ensures
            r.pos_begin == pos_begin,
            r.pos_end == pos_end,
            r.error_name == error_name,
            r.error_message == error_message,
    {
        Self { pos_begin, pos_end, error_name, error_message }
    }

    /// Writes the diagnostic out, as [`error_text`] describes.
    pub fn as_string(&self) -> (r: String)
        ensures
            r@ == error_text(self@),
    {
        let mut out = String::new();
        push_text(&mut out, self.error_name.as_str());
        push_text(&mut out, ": ");
        push_text(&mut out, self.error_message.as_str());
        push_text(&mut out, ", File ");
        match &self.pos_begin {
            Some(p) => {
                push_text(&mut out, p.file_name.as_str());
                push_text(&mut out, ", line ");
                push_int(&mut out, p.line as i128 + 1);
                push_text(&mut out, ", col ");
                push_int(&mut out, p.column as i128);
            },
            None => {
                push_text(&mut out, "Unknown File");
                push_text(&mut out, ", line ");
                push_int(&mut out, -1);
                push_text(&mut out, ", col ");
                push_int(&mut out, -1);
            },
        }
        assert(out@ =~= headline(self@));
        push_text(&mut out, "\n\n");
        let excerpt_text = string_with_arrows(&self.pos_begin, &self.pos_end);
        push_text(&mut out, excerpt_text.as_str());
        out
    }
}

/// A character that no token can start with.
#[derive(Debug)]
pub struct DisallowedCharError {
    pub error: Error,
}

/// The value of a diagnostic of kind `name` for the span and message given.
pub open spec fn diagnostic(
    start: Option<Position>,
    end: Option<Position>,
    name: Seq<char>,
    message: Seq<char>,
) -> ErrorView {
    ErrorView { start: view_opt(start), end: view_opt(end), name, message }
}

impl DisallowedCharError {
    /// A diagnostic of this kind for the span and message given.
    pub fn new(pos_begin: Option<Position>, pos_end: Option<Position>, error_message: String) -> (r:
        Self)
        ensures
            r.error@ == diagnostic(pos_begin, pos_end, "Illegal Character"@, error_message@),
    {
        Self {
            error: Error::new(pos_begin, pos_end, "Illegal Character".to_owned(), error_message),
        }
    }

    /// Writes the diagnostic out, as [`error_text`] describes.
    pub fn as_string(&self) -> (r: String)
        ensures
            r@ == error_text(self.error@),
    {
        self.error.as_string()
    }
}

/// Tokens that form no expression.
#[derive(Debug)]
pub struct SyntaxError {
    pub error: Error,
}

impl SyntaxError {
    /// A diagnostic of this kind for the span and message given.
    pub fn new(pos_begin: Option<Position>, pos_end: Option<Position>, error_message: String) -> (r:
        Self)
        ensures
            r.error@ == diagnostic(pos_begin, pos_end, "Syntax Error"@, error_message@),
    {
        Self { error: Error::new(pos_begin, pos_end, "Syntax Error".to_owned(), error_message) }
    }

    /// Writes the diagnostic out, as [`error_text`] describes.
    pub fn as_string(&self) -> (r: String)
        ensures
            r@ == error_text(self.error@),
    {
        self.error.as_string()
    }
}

/// A division whose right operand is zero.
#[derive(Debug)]
pub struct DivisionByZeroError {
    pub error: Error,
}

impl DivisionByZeroError {
    /// A diagnostic of this kind for the span and message given.
    pub fn new(pos_begin: Option<Position>, pos_end: Option<Position>, error_message: String) -> (r:
        Self)
        ensures
            r.error@ == diagnostic(pos_begin, pos_end, "DivisionByZero Error"@, error_message@),
    {
        Self {
            error: Error::new(
                pos_begin,
                pos_end,
                "DivisionByZero Error".to_owned(),
                error_message,
            ),
        }
    }

    /// Writes the diagnostic out, as [`error_text`] describes.
    pub fn as_string(&self) -> (r: String)
        ensures
            r@ == error_text(self.error@),
    {
        self.error.as_string()
    }
}

/// A power whose exponent is negative.
#[derive(Debug)]
pub struct InvalidPowerError {
    pub error: Error,
}

impl InvalidPowerError {
    /// A diagnostic of this kind for the span and message given.
    pub fn new(pos_begin: Option<Position>, pos_end: Option<Position>, error_message: String) -> (r:
        Self)
        ensures
            r.error@ == diagnostic(pos_begin, pos_end, "InvalidPower Error"@, error_message@),
    {
        Self {
            error: Error::new(pos_begin, pos_end, "InvalidPower Error".to_owned(), error_message),
        }
    }

    /// Writes the diagnostic out, as [`error_text`] describes.
    pub fn as_string(&self) -> (r: String)
        ensures
            r@ == error_text(self.error@),
    {
        self.error.as_string()
    }
}

/// A failure during evaluation, with the frame in which it happened.
#[derive(Debug)]
pub struct RunTimeError {
    pub error: Error,
    pub context: Context,
}

/// The lines of a traceback for the frame `c`, entered or failed at `p`,
/// and the frames above it, outermost first; `below` holds the lines of
/// the frames beneath.
pub open spec fn frames(p: PositionView, c: ContextView, below: Seq<char>) -> Seq<char>
    decreases c,
{
    let lines = "File: "@ + p.file_name + " Line "@ + int_text(p.line) + " Col "@ + int_text(
        p.column,
    ) + ", in "@ + c.display_name + " \n"@ + below;
    match c.parent {
        Some(parent) => match c.parent_pos {
            Some(q) => frames(q, *parent, lines),
            None => lines,
        },
        None => lines,
    }
}

/// The traceback of a failure at `p` in the frame `c`.
pub open spec fn traceback(p: PositionView, c: ContextView) -> Seq<char> {
    "Traceback from most recent callback: \n"@ + frames(p, c, Seq::empty())
}

/// A written runtime failure: the traceback, kind and message, an empty
/// line, and the source excerpt with its markers.
pub open spec fn runtime_text(e: ErrorView, c: ContextView) -> Seq<char> {
    traceback(e.start->0, c) + " "@ + e.name + ": "@ + e.message + "\n\n"@ + arrows(e.start, e.end)
}

/// Writes the lines of a traceback, as [`frames`] describes.
fn write_frames(pos: &Position, context: &Context, below: String) -> (r: String)
    requires
        linked(context@),
    ensures
        r@ == frames(pos@, context@, below@),
    decreases context,
{
    let mut lines = String::new();
    push_text(&mut lines, "File: ");
    push_text(&mut lines, pos.file_name.as_str());
    push_text(&mut lines, " Line ");
    push_int(&mut lines, pos.line as i128);
    push_text(&mut lines, " Col ");
    push_int(&mut lines, pos.column as i128);
    push_text(&mut lines, ", in ");
    push_text(&mut lines, context.display_name.as_str());
    push_text(&mut lines, " \n");
    push_text(&mut lines, below.as_str());
    match &context.parent {
        Some(parent) => match &context.parent_pos {
            Some(q) => write_frames(q, parent, lines),
            None => vstd::pervasive::unreached(),
        },
        None => lines,
    }
}

impl RunTimeError {
    /// A diagnostic of this kind for the span and message given.
    pub fn new(
        pos_begin: Option<Position>,
        pos_end: Option<Position>,
        error_message: String,
        context: Context,
    ) -> (r: Self)
        ensures
            r.error@ == diagnostic(pos_begin, pos_end, "Runtime Error"@, error_message@),
            r.context == context,
    {
        Self {
            error: Error::new(pos_begin, pos_end, "Runtime Error".to_owned(), error_message),
            context,
        }
    }

    /// Writes the failure out, as [`runtime_text`] describes.
    pub fn as_string(&self) -> (r: String)
        requires
            self.error@.start is Some,
            linked(self.context@),
        ensures
            r@ == runtime_text(self.error@, self.context@),
    {
        let mut out = self.traceback_error();
        push_text(&mut out, " ");
        push_text(&mut out, self.error.error_name.as_str());
        push_text(&mut out, ": ");
        push_text(&mut out, self.error.error_message.as_str());
        push_text(&mut out, "\n\n");
        let excerpt_text = string_with_arrows(&self.error.pos_begin, &self.error.pos_end);
        push_text(&mut out, excerpt_text.as_str());
        out
    }

    /// The frames that led to the failure, outermost first, each with the
    /// position at which it was entered.
    pub fn traceback_error(&self) -> (r: String)
        requires
            self.error@.start is Some,
            linked(self.context@),
        ensures
            r@ == traceback(self.error@.start->0, self.context@),
    {
        let mut out = String::new();
        push_text(&mut out, "Traceback from most recent callback: \n");
        let lines = match &self.error.pos_begin {
            Some(p) => write_frames(p, &self.context, String::new()),
            None => vstd::pervasive::unreached(),
        };
        push_text(&mut out, lines.as_str());
        out
    }
}

/// The kinds of diagnostic.
#[derive(Debug)]
pub enum ErrorType {
    DisallowedCharError(DisallowedCharError),
    SyntaxError(SyntaxError),
    RunTimeError(RunTimeError),
    DivisionByZeroError(DivisionByZeroError),
    InvalidPowerError(InvalidPowerError),
}

/// The mathematical value of an [`ErrorType`].
pub ghost enum ErrorTypeView {
    DisallowedChar(ErrorView),
    Syntax(ErrorView),
    RunTime(ErrorView, ContextView),
    DivisionByZero(ErrorView),
    InvalidPower(ErrorView),
}

impl View for ErrorType {
    type V = ErrorTypeView;

    open spec fn view(&self) -> ErrorTypeView {
        match *self {
            ErrorType::DisallowedCharError(e) => ErrorTypeView::DisallowedChar(e.error@),
            ErrorType::SyntaxError(e) => ErrorTypeView::Syntax(e.error@),
            ErrorType::RunTimeError(e) => ErrorTypeView::RunTime(e.error@, e.context@),
            ErrorType::DivisionByZeroError(e) => ErrorTypeView::DivisionByZero(e.error@),
            ErrorType::InvalidPowerError(e) => ErrorTypeView::InvalidPower(e.error@),
        }
    }
}

/// A condition that ends a computation for good and is no diagnostic.
#[derive(Clone, Copy, Debug, PartialEq, Eq, Structural)]
pub enum Fault {
    /// A numeric literal with more than one decimal point.
    TooManyDots,
    /// An integer literal that no 64-bit signed integer holds.
    LiteralOutOfRange,
    /// Integer arithmetic whose result no 64-bit signed integer holds.
    Overflow,
}

/// Why a computation stopped before it had a result.
#[derive(Debug)]
pub enum Halt {
    /// The input is at fault: a diagnostic.
    Error(ErrorType),
    /// The result of a float operation is needed that the table lacks.
    Float(FloatRequest),
    /// The computation cannot go on.
    Fault(Fault),
}

/// The mathematical value of a [`Halt`].
pub ghost enum HaltView {
    Error(ErrorTypeView),
    Float(FloatRequestView),
    Fault(Fault),
}

impl View for Halt {
    type V = HaltView;

    open spec fn view(&self) -> HaltView {
        match *self {
            Halt::Error(e) => HaltView::Error(e@),
            Halt::Float(q) => HaltView::Float(q@),
            Halt::Fault(f) => HaltView::Fault(f),
        }
    }
}

} // verus!
