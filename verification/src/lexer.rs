//! The lexer: from source text to tokens.

use crate::errors::{
    DisallowedCharError, ErrorType, ErrorTypeView, ErrorView, Fault, Halt, HaltView,
};
use crate::floats::{answer_bits, FloatFacts, FloatRequest, FloatRequestView, FloatTable};
use crate::position::{advanced, Position, PositionView};
use crate::text::{chars_of, push_char, string_of};
use crate::token::{Token, TokenKind, TokenType, TokenView};
use vstd::prelude::*;

verus! {

/// Whether `c` is a blank that separates tokens and is no token itself.
pub open spec fn is_blank(c: char) -> bool {
    c == ' ' || c == '\t'
}

/// Whether `c` is a decimal digit.
pub open spec fn is_digit(c: char) -> bool {
    '0' <= c <= '9'
}

/// Whether `c` is a letter of the Latin alphabet without diacritics.
pub open spec fn is_ascii_letter(c: char) -> bool {
    ('a' <= c <= 'z') || ('A' <= c <= 'Z')
}

/// Whether `c` has the Unicode property `Alphabetic`.
pub uninterp spec fn alphabetic(c: char) -> bool;

/// `char::is_alphabetic`: whether the character has the Unicode property
/// `Alphabetic`.
#[verifier::external_body]
fn is_alphabetic(c: char) -> (r: bool)
    ensures
        r == alphabetic(c),
{
    c.is_alphabetic()
}

/// Whether a name can start with `c`.
pub open spec fn is_name_start(c: char) -> bool {
    is_ascii_letter(c) || c == '_'
}

/// Whether a name can go on with `c`: with an alphabetic character, a
/// digit or an underscore, and never with a blank.
pub open spec fn is_name_part(c: char) -> bool {
    !is_blank(c) && (alphabetic(c) || is_digit(c) || c == '_')
}

/// The kind of the token that the single character `c` forms.
pub open spec fn operator_kind(c: char) -> Option<TokenKind> {
    if c == '+' {
        Some(TokenKind::Plus)
    } else if c == '-' {
        Some(TokenKind::Minus)
    } else if c == '*' {
        Some(TokenKind::Multiply)
    } else if c == '/' {
        Some(TokenKind::Divide)
    } else if c == '(' {
        Some(TokenKind::LParen)
    } else if c == '^' {
        Some(TokenKind::Pow)
    } else if c == '=' {
        Some(TokenKind::Equal)
    } else if c == ')' {
        Some(TokenKind::RParen)
    } else {
        None
    }
}

/// The position of the cursor at offset `i` of `text`. Before the first
/// character the cursor stands at offset and column `-1`; each step on
/// adds one to both, and leaving a newline starts the next line.
pub open spec fn position_at(file_name: Seq<char>, text: Seq<char>, i: int) -> PositionView
    decreases i + 1,
{
    if i < 0 {
        PositionView { index: -1, line: 0, column: -1, file_name, file_text: text }
    } else {
        advanced(
            position_at(file_name, text, i - 1),
            if 0 < i <= text.len() {
                Some(text[i - 1])
            } else {
                None
            },
        )
    }
}

/// The cursor at offset `i` has that offset, and line and column within
/// the characters passed.
pub proof fn position_at_bounds(file_name: Seq<char>, text: Seq<char>, i: int)
    requires
        -1 <= i,
    ensures
        position_at(file_name, text, i).index == i,
        0 <= position_at(file_name, text, i).line <= i + 1,
        -1 <= position_at(file_name, text, i).column <= i,
        position_at(file_name, text, i).file_name == file_name,
        position_at(file_name, text, i).file_text == text,
    decreases i + 1,
{
    if i >= 0 {
        position_at_bounds(file_name, text, i - 1);
    }
}

/// How many characters of a numeric literal follow from offset `j` on,
/// where `dots` decimal points came before: digits, and one decimal point
/// at most.
pub open spec fn number_run(text: Seq<char>, j: int, dots: int) -> nat
    decreases text.len() - j,
{
    if j < 0 || j >= text.len() {
        0
    } else if is_digit(text[j]) {
        1 + number_run(text, j + 1, dots)
    } else if text[j] == '.' && dots < 1 {
        1 + number_run(text, j + 1, dots + 1)
    } else {
        0
    }
}

/// How many characters of a name follow from offset `j` on.
pub open spec fn name_run(text: Seq<char>, j: int) -> nat
    decreases text.len() - j,
{
    if j < 0 || j >= text.len() {
        0
    } else if is_name_part(text[j]) {
        1 + name_run(text, j + 1)
    } else {
        0
    }
}

/// The number that the decimal digits `s` denote.
pub open spec fn digits_value(s: Seq<char>) -> nat
    decreases s.len(),
{
    if s.len() == 0 {
        0
    } else {
        digits_value(s.drop_last()) * 10 + (s.last() as int - '0' as int) as nat
    }
}

/// The words that are keywords and no names.
pub open spec fn is_keyword(word: Seq<char>) -> bool {
    word == "muut"@
}

/// The tokens `first`, then those of `rest`, unless `rest` stopped.
pub open spec fn prepend(first: Seq<TokenView>, rest: Result<Seq<TokenView>, HaltView>) -> Result<
    Seq<TokenView>,
    HaltView,
> {
    match rest {
        Ok(tokens) => Ok(first + tokens),
        Err(h) => Err(h),
    }
}

/// Tokens put before tokens put before a scan are all put before it.
pub proof fn prepend_twice(
    first: Seq<TokenView>,
    second: Seq<TokenView>,
    rest: Result<Seq<TokenView>, HaltView>,
)
    ensures
        prepend(first, prepend(second, rest)) == prepend(first + second, rest),
{
    match rest {
        Ok(tokens) => {
            assert(first + (second + tokens) =~= (first + second) + tokens);
        },
        Err(_) => {},
    }
}

/// The kind of the numeric literal `lexeme`: without a decimal point an
/// integer with the value of its digits, with one a float with the value
/// that `facts` gives for the literal.
pub open spec fn number_kind(lexeme: Seq<char>, facts: FloatFacts) -> Result<TokenKind, HaltView> {
    if !lexeme.contains('.') {
        if digits_value(lexeme) <= i64::MAX {
            Ok(TokenKind::Int(digits_value(lexeme) as i64))
        } else {
            Err(HaltView::Fault(Fault::LiteralOutOfRange))
        }
    } else {
        match answer_bits(facts, FloatRequestView::Parse(lexeme)) {
            Some(b) => Ok(TokenKind::Float(b)),
            None => Err(HaltView::Float(FloatRequestView::Parse(lexeme))),
        }
    }
}

/// The diagnostic for the character `c` at offset `i`, which no token can
/// start with: its span is that one character, its message the character.
pub open spec fn disallowed(file_name: Seq<char>, text: Seq<char>, i: int) -> ErrorTypeView {
    ErrorTypeView::DisallowedChar(
        ErrorView {
            start: Some(position_at(file_name, text, i)),
            end: Some(position_at(file_name, text, i + 1)),
            name: "Illegal Character"@,
            message: seq![text[i]],
        },
    )
}

/// The tokens of `text` from offset `i` on, ending with the end-of-file
/// token, or why the scan stopped. Blanks are skipped. An operator is a
/// token of one character with a start and no end. A digit starts a numeric
/// literal and a letter or underscore a name, each as long as it can be and
/// with the span of its text. A second decimal point in a literal is a
/// fault. Any other character is answered with a diagnostic.
pub open spec fn lex_from(
    file_name: Seq<char>,
    text: Seq<char>,
    i: int,
    facts: FloatFacts,
) -> Result<Seq<TokenView>, HaltView>
    decreases
            (if i < text.len() {
                text.len() - i
            } else {
                0
            }),
{
    if i < 0 || i >= text.len() {
        let at = position_at(file_name, text, i);
        Ok(seq![TokenView { kind: TokenKind::EndOfFile, start: Some(at), end: Some(at) }])
    } else if is_blank(text[i]) {
        lex_from(file_name, text, i + 1, facts)
    } else if operator_kind(text[i]) is Some {
        prepend(
            seq![
                TokenView {
                    kind: operator_kind(text[i])->0,
                    start: Some(position_at(file_name, text, i)),
                    end: None,
                },
            ],
            lex_from(file_name, text, i + 1, facts),
        )
    } else if is_digit(text[i]) {
        let end = i + 1 + number_run(text, i + 1, 0);
        if end < text.len() && text[end] == '.' {
            Err(HaltView::Fault(Fault::TooManyDots))
        } else {
            match number_kind(text.subrange(i, end), facts) {
                Ok(kind) => prepend(
                    seq![
                        TokenView {
                            kind,
                            start: Some(position_at(file_name, text, i)),
                            end: Some(position_at(file_name, text, end)),
                        },
                    ],
                    lex_from(file_name, text, end, facts),
                ),
                Err(h) => Err(h),
            }
        }
    } else if is_name_start(text[i]) {
        let end = i + 1 + name_run(text, i + 1);
        let word = text.subrange(i, end);
        prepend(
            seq![
                TokenView {
                    kind: if is_keyword(word) {
                        TokenKind::Keyword(word)
                    } else {
                        TokenKind::Identifier(word)
                    },
                    start: Some(position_at(file_name, text, i)),
                    end: Some(position_at(file_name, text, end)),
                },
            ],
            lex_from(file_name, text, end, facts),
        )
    } else {
        Err(HaltView::Error(disallowed(file_name, text, i)))
    }
}

/// The tokens of `text`, or why the scan stopped.
pub open spec fn lex(file_name: Seq<char>, text: Seq<char>, facts: FloatFacts) -> Result<
    Seq<TokenView>,
    HaltView,
> {
    lex_from(file_name, text, 0, facts)
}

/// The values of a sequence of tokens.
pub open spec fn tokens_view(tokens: Seq<Token>) -> Seq<TokenView> {
    Seq::new(tokens.len(), |i: int| tokens[i]@)
}

/// The tokens of a text end with the end-of-file token.
pub proof fn lex_ends(file_name: Seq<char>, text: Seq<char>, i: int, facts: FloatFacts)
    ensures
        match lex_from(file_name, text, i, facts) {
            Ok(tokens) => tokens.len() > 0 && tokens.last().kind is EndOfFile,
            Err(_) => true,
        },
    decreases
            (if i < text.len() {
                text.len() - i
            } else {
                0
            }),
{
    if 0 <= i < text.len() {
        if is_blank(text[i]) || operator_kind(text[i]) is Some {
            lex_ends(file_name, text, i + 1, facts);
        } else if is_digit(text[i]) {
            lex_ends(file_name, text, i + 1 + number_run(text, i + 1, 0), facts);
        } else if is_name_start(text[i]) {
            lex_ends(file_name, text, i + 1 + name_run(text, i + 1), facts);
        }
    }
}

/// In a text of digits with at most one decimal point, all of it is one
/// numeric literal.
pub proof fn number_run_whole(text: Seq<char>, j: int, dots: int)
    requires
        0 <= j <= text.len(),
        forall|i: int| 0 <= i < text.len() ==> is_digit(text[i]) || text[i] == '.',
        forall|i: int, k: int|
            0 <= i < k < text.len() && text[i] == '.' ==> text[k] != '.',
        dots == 0 || dots == 1,
        dots == 1 <==> exists|i: int| 0 <= i < j && text[i] == '.',
    ensures
        j + number_run(text, j, dots) == text.len(),
    decreases text.len() - j,
{
    if j < text.len() {
        if is_digit(text[j]) {
            assert forall|i: int| 0 <= i < j + 1 && text[i] == '.' implies 0 <= i < j by {}
            number_run_whole(text, j + 1, dots);
        } else {
            assert(text[j] == '.');
            if dots == 1 {
                let i = choose|i: int| 0 <= i < j && text[i] == '.';
                assert(text[j] != '.');
            }
            number_run_whole(text, j + 1, 1);
        }
    }
}

/// A text that is one numeric literal gives exactly one token besides the
/// end-of-file token: digits alone an integer with their decimal value,
/// digits with one decimal point a float with the value that the table
/// holds for the literal. The token spans the whole text.
pub proof fn literal_is_one_token(file_name: Seq<char>, text: Seq<char>, facts: FloatFacts)
    requires
        text.len() > 0,
        is_digit(text[0]),
        forall|i: int| 0 <= i < text.len() ==> is_digit(text[i]) || text[i] == '.',
        forall|i: int, k: int|
            0 <= i < k < text.len() && text[i] == '.' ==> text[k] != '.',
    ensures
        lex(file_name, text, facts) == match number_kind(text, facts) {
            Ok(kind) => Ok::<Seq<TokenView>, HaltView>(
                seq![
                    TokenView {
                        kind,
                        start: Some(position_at(file_name, text, 0)),
                        end: Some(position_at(file_name, text, text.len() as int)),
                    },
                    TokenView {
                        kind: TokenKind::EndOfFile,
                        start: Some(position_at(file_name, text, text.len() as int)),
                        end: Some(position_at(file_name, text, text.len() as int)),
                    },
                ],
            ),
            Err(h) => Err(h),
        },
        match number_kind(text, facts) {
            Ok(kind) => if text.contains('.') {
                kind is Float
            } else {
                kind == TokenKind::Int(digits_value(text) as i64)
            },
            Err(h) => h is Fault || h is Float,
        },
{
    number_run_whole(text, 1, 0);
    let end = text.len() as int;
    assert(text.subrange(0, end) == text);
    let first = lex_from(file_name, text, 0, facts);
    let last = lex_from(file_name, text, end, facts);
    match number_kind(text, facts) {
        Ok(kind) => {
            let one = seq![
                TokenView {
                    kind,
                    start: Some(position_at(file_name, text, 0)),
                    end: Some(position_at(file_name, text, end)),
                },
            ];
            assert(first == prepend(one, last));
            assert(one + last->Ok_0 =~= seq![one[0], last->Ok_0[0]]);
        },
        Err(_) => {},
    }
}

/// A text of one character that is no blank and that no token can start
/// with is answered with a diagnostic whose span is that character: it
/// starts at offset zero and ends at offset one.
pub proof fn illegal_character_is_located(file_name: Seq<char>, c: char, facts: FloatFacts)
    requires
        !is_blank(c),
        operator_kind(c) is None,
        !is_digit(c),
        !is_name_start(c),
    ensures
        lex(file_name, seq![c], facts) == Err::<Seq<TokenView>, HaltView>(
            HaltView::Error(disallowed(file_name, seq![c], 0)),
        ),
        disallowed(file_name, seq![c], 0) matches ErrorTypeView::DisallowedChar(e)
            && e.start->0.index == 0 && e.end->0.index == 1 && e.message == seq![c],
{
    let text = seq![c];
    position_at_bounds(file_name, text, 0);
    position_at_bounds(file_name, text, 1);
}

/// The kinds of a sequence of tokens.
pub open spec fn kinds(tokens: Seq<TokenView>) -> Seq<TokenKind> {
    Seq::new(tokens.len(), |i: int| tokens[i].kind)
}

/// Whether the scan of `text` from offset `i` on comes to offset `p` between
/// two tokens: a token, a blank or the end of the text starts at `p`.
pub open spec fn reaches(text: Seq<char>, i: int, p: int) -> bool
    decreases
            (if i < text.len() {
                text.len() - i
            } else {
                0
            }),
{
    if i == p {
        true
    } else if i < 0 || i >= text.len() || i > p {
        false
    } else if is_blank(text[i]) || operator_kind(text[i]) is Some {
        reaches(text, i + 1, p)
    } else if is_digit(text[i]) {
        reaches(text, i + 1 + number_run(text, i + 1, 0), p)
    } else if is_name_start(text[i]) {
        reaches(text, i + 1 + name_run(text, i + 1), p)
    } else {
        false
    }
}

/// The scan only moves forward.
proof fn reaches_forward(text: Seq<char>, i: int, p: int)
    requires
        reaches(text, i, p),
    ensures
        i <= p,
    decreases
            (if i < text.len() {
                text.len() - i
            } else {
                0
            }),
{
    if i != p {
        if is_blank(text[i]) || operator_kind(text[i]) is Some {
            reaches_forward(text, i + 1, p);
        } else if is_digit(text[i]) {
            reaches_forward(text, i + 1 + number_run(text, i + 1, 0), p);
        } else if is_name_start(text[i]) {
            reaches_forward(text, i + 1 + name_run(text, i + 1), p);
        }
    }
}

/// A run of a numeric literal that ends before a blank depends only on the
/// text before the blank.
proof fn number_run_before(text: Seq<char>, other: Seq<char>, j: int, dots: int, p: int)
    requires
        0 <= j <= p <= text.len(),
        p < other.len(),
        forall|k: int| 0 <= k < p ==> other[k] == text[k],
        is_blank(other[p]),
        j + number_run(text, j, dots) <= p,
    ensures
        number_run(other, j, dots) == number_run(text, j, dots),
    decreases p - j,
{
    if j < p {
        if is_digit(text[j]) {
            number_run_before(text, other, j + 1, dots, p);
        } else if text[j] == '.' && dots < 1 {
            number_run_before(text, other, j + 1, dots + 1, p);
        }
    }
}

/// A run of a name that ends before a blank depends only on the text
/// before the blank.
proof fn name_run_before(text: Seq<char>, other: Seq<char>, j: int, p: int)
    requires
        0 <= j <= p <= text.len(),
        p < other.len(),
        forall|k: int| 0 <= k < p ==> other[k] == text[k],
        is_blank(other[p]),
        j + name_run(text, j) <= p,
    ensures
        name_run(other, j) == name_run(text, j),
    decreases p - j,
{
    if j < p && is_name_part(text[j]) {
        name_run_before(text, other, j + 1, p);
    }
}

/// A run of a numeric literal is the same in a text whose characters from
/// `p` on stand one place further on.
proof fn number_run_shifted(text: Seq<char>, other: Seq<char>, j: int, dots: int, p: int)
    requires
        0 <= p <= j <= text.len(),
        other.len() == text.len() + 1,
        forall|k: int| p <= k < text.len() ==> other[k + 1] == text[k],
    ensures
        number_run(other, j + 1, dots) == number_run(text, j, dots),
    decreases text.len() - j,
{
    if j < text.len() {
        if is_digit(text[j]) {
            number_run_shifted(text, other, j + 1, dots, p);
        } else if text[j] == '.' && dots < 1 {
            number_run_shifted(text, other, j + 1, dots + 1, p);
        }
    }
}

/// A run of a name is the same in a text whose characters from `p` on stand
/// one place further on.
proof fn name_run_shifted(text: Seq<char>, other: Seq<char>, j: int, p: int)
    requires
        0 <= p <= j <= text.len(),
        other.len() == text.len() + 1,
        forall|k: int| p <= k < text.len() ==> other[k + 1] == text[k],
    ensures
        name_run(other, j + 1) == name_run(text, j),
    decreases text.len() - j,
{
    if j < text.len() && is_name_part(text[j]) {
        name_run_shifted(text, other, j + 1, p);
    }
}

/// Tokens of the same kinds stay of the same kinds with a token of one kind
/// put before each.
proof fn kinds_of_prepended(first: TokenView, second: TokenView, rest: Seq<TokenView>, more: Seq<
    TokenView,
>)
    requires
        first.kind == second.kind,
        kinds(rest) == kinds(more),
    ensures
        kinds(seq![first] + rest) == kinds(seq![second] + more),
{
    assert(kinds(rest).len() == rest.len());
    assert(kinds(more).len() == more.len());
    assert forall|i: int| 0 <= i < rest.len() implies rest[i].kind == more[i].kind by {
        assert(kinds(rest)[i] == rest[i].kind);
        assert(kinds(more)[i] == more[i].kind);
    }
    assert(kinds(seq![first] + rest) =~= kinds(seq![second] + more));
}

/// From the blank on, the text with the blank scans into the same kinds as
/// the text without it.
proof fn kinds_after_blank(
    file_name: Seq<char>,
    text: Seq<char>,
    other: Seq<char>,
    j: int,
    p: int,
    facts: FloatFacts,
)
    requires
        0 <= p <= j <= text.len(),
        other.len() == text.len() + 1,
        forall|k: int| p <= k < text.len() ==> other[k + 1] == text[k],
        lex_from(file_name, text, j, facts) is Ok,
    ensures
        lex_from(file_name, other, j + 1, facts) is Ok,
        kinds(lex_from(file_name, other, j + 1, facts)->Ok_0) == kinds(
            lex_from(file_name, text, j, facts)->Ok_0,
        ),
    decreases text.len() - j,
{
    if j >= text.len() {
        assert(kinds(lex_from(file_name, other, j + 1, facts)->Ok_0) =~= kinds(
            lex_from(file_name, text, j, facts)->Ok_0,
        ));
    } else if is_blank(text[j]) {
        kinds_after_blank(file_name, text, other, j + 1, p, facts);
    } else if operator_kind(text[j]) is Some {
        kinds_after_blank(file_name, text, other, j + 1, p, facts);
        kinds_of_prepended(
            TokenView {
                kind: operator_kind(text[j])->0,
                start: Some(position_at(file_name, other, j + 1)),
                end: None,
            },
            TokenView {
                kind: operator_kind(text[j])->0,
                start: Some(position_at(file_name, text, j)),
                end: None,
            },
            lex_from(file_name, other, j + 2, facts)->Ok_0,
            lex_from(file_name, text, j + 1, facts)->Ok_0,
        );
    } else if is_digit(text[j]) {
        let end = j + 1 + number_run(text, j + 1, 0);
        number_run_bound(text, j + 1, 0);
        number_run_shifted(text, other, j + 1, 0, p);
        assert(other.subrange(j + 1, end + 1) =~= text.subrange(j, end));
        let kind = number_kind(text.subrange(j, end), facts)->Ok_0;
        kinds_after_blank(file_name, text, other, end, p, facts);
        kinds_of_prepended(
            TokenView {
                kind,
                start: Some(position_at(file_name, other, j + 1)),
                end: Some(position_at(file_name, other, end + 1)),
            },
            TokenView {
                kind,
                start: Some(position_at(file_name, text, j)),
                end: Some(position_at(file_name, text, end)),
            },
            lex_from(file_name, other, end + 1, facts)->Ok_0,
            lex_from(file_name, text, end, facts)->Ok_0,
        );
    } else if is_name_start(text[j]) {
        let end = j + 1 + name_run(text, j + 1);
        name_run_bound(text, j + 1);
        name_run_shifted(text, other, j + 1, p);
        assert(other.subrange(j + 1, end + 1) =~= text.subrange(j, end));
        let word = text.subrange(j, end);
        let kind = if is_keyword(word) {
            TokenKind::Keyword(word)
        } else {
            TokenKind::Identifier(word)
        };
        kinds_after_blank(file_name, text, other, end, p, facts);
        kinds_of_prepended(
            TokenView {
                kind,
                start: Some(position_at(file_name, other, j + 1)),
                end: Some(position_at(file_name, other, end + 1)),
            },
            TokenView {
                kind,
                start: Some(position_at(file_name, text, j)),
                end: Some(position_at(file_name, text, end)),
            },
            lex_from(file_name, other, end + 1, facts)->Ok_0,
            lex_from(file_name, text, end, facts)->Ok_0,
        );
    }
}

/// Up to the blank and beyond it, the text with the blank scans into the
/// same kinds as the text without it.
proof fn kinds_before_blank(
    file_name: Seq<char>,
    text: Seq<char>,
    other: Seq<char>,
    i: int,
    p: int,
    facts: FloatFacts,
)
    requires
        0 <= i <= p <= text.len(),
        other.len() == text.len() + 1,
        forall|k: int| 0 <= k < p ==> other[k] == text[k],
        is_blank(other[p]),
        forall|k: int| p <= k < text.len() ==> other[k + 1] == text[k],
        reaches(text, i, p),
        lex_from(file_name, text, i, facts) is Ok,
    ensures
        lex_from(file_name, other, i, facts) is Ok,
        kinds(lex_from(file_name, other, i, facts)->Ok_0) == kinds(
            lex_from(file_name, text, i, facts)->Ok_0,
        ),
    decreases p - i,
{
    if i == p {
        kinds_after_blank(file_name, text, other, p, p, facts);
    } else if is_blank(text[i]) {
        kinds_before_blank(file_name, text, other, i + 1, p, facts);
    } else if operator_kind(text[i]) is Some {
        kinds_before_blank(file_name, text, other, i + 1, p, facts);
        kinds_of_prepended(
            TokenView {
                kind: operator_kind(text[i])->0,
                start: Some(position_at(file_name, other, i)),
                end: None,
            },
            TokenView {
                kind: operator_kind(text[i])->0,
                start: Some(position_at(file_name, text, i)),
                end: None,
            },
            lex_from(file_name, other, i + 1, facts)->Ok_0,
            lex_from(file_name, text, i + 1, facts)->Ok_0,
        );
    } else if is_digit(text[i]) {
        let end = i + 1 + number_run(text, i + 1, 0);
        reaches_forward(text, end, p);
        number_run_before(text, other, i + 1, 0, p);
        assert(other.subrange(i, end) =~= text.subrange(i, end));
        let kind = number_kind(text.subrange(i, end), facts)->Ok_0;
        kinds_before_blank(file_name, text, other, end, p, facts);
        kinds_of_prepended(
            TokenView {
                kind,
                start: Some(position_at(file_name, other, i)),
                end: Some(position_at(file_name, other, end)),
            },
            TokenView {
                kind,
                start: Some(position_at(file_name, text, i)),
                end: Some(position_at(file_name, text, end)),
            },
            lex_from(file_name, other, end, facts)->Ok_0,
            lex_from(file_name, text, end, facts)->Ok_0,
        );
    } else if is_name_start(text[i]) {
        let end = i + 1 + name_run(text, i + 1);
        reaches_forward(text, end, p);
        name_run_before(text, other, i + 1, p);
        assert(other.subrange(i, end) =~= text.subrange(i, end));
        let word = text.subrange(i, end);
        let kind = if is_keyword(word) {
            TokenKind::Keyword(word)
        } else {
            TokenKind::Identifier(word)
        };
        kinds_before_blank(file_name, text, other, end, p, facts);
        kinds_of_prepended(
            TokenView {
                kind,
                start: Some(position_at(file_name, other, i)),
                end: Some(position_at(file_name, other, end)),
            },
            TokenView {
                kind,
                start: Some(position_at(file_name, text, i)),
                end: Some(position_at(file_name, text, end)),
            },
            lex_from(file_name, other, end, facts)->Ok_0,
            lex_from(file_name, text, end, facts)->Ok_0,
        );
    }
}

/// Blanks between tokens do not matter: a text that scans into tokens
/// scans into tokens of the same kinds, in the same order, when a blank is
/// put in at an offset between two of its tokens.
pub proof fn blank_between_tokens_changes_no_kind(
    file_name: Seq<char>,
    text: Seq<char>,
    p: int,
    blank: char,
    facts: FloatFacts,
)
    requires
        0 <= p <= text.len(),
        is_blank(blank),
        reaches(text, 0, p),
        lex(file_name, text, facts) is Ok,
    ensures
        lex(file_name, text.insert(p, blank), facts) is Ok,
        kinds(lex(file_name, text.insert(p, blank), facts)->Ok_0) == kinds(
            lex(file_name, text, facts)->Ok_0,
        ),
{
    kinds_before_blank(file_name, text, text.insert(p, blank), 0, p, facts);
}

/// A run of characters ends within the text.
pub proof fn number_run_bound(text: Seq<char>, j: int, dots: int)
    requires
        0 <= j <= text.len(),
    ensures
        j + number_run(text, j, dots) <= text.len(),
    decreases text.len() - j,
{
    if j < text.len() {
        if is_digit(text[j]) {
            number_run_bound(text, j + 1, dots);
        } else if text[j] == '.' && dots < 1 {
            number_run_bound(text, j + 1, dots + 1);
        }
    }
}

/// A run of characters ends within the text.
pub proof fn name_run_bound(text: Seq<char>, j: int)
    requires
        0 <= j <= text.len(),
    ensures
        j + name_run(text, j) <= text.len(),
    decreases text.len() - j,
{
    if j < text.len() && is_name_part(text[j]) {
        name_run_bound(text, j + 1);
    }
}

/// The value of a run of digits is at least that of each of its prefixes.
pub proof fn digits_value_grows(s: Seq<char>, k: int)
    requires
        0 <= k <= s.len(),
        forall|i: int| 0 <= i < s.len() ==> is_digit(s[i]),
    ensures
        digits_value(s.subrange(0, k)) <= digits_value(s),
    decreases s.len(),
{
    if k < s.len() {
        let t = s.drop_last();
        digits_value_grows(t, k);
        assert(t.subrange(0, k) == s.subrange(0, k));
    } else {
        assert(s.subrange(0, k) == s);
    }
}

/// The integer that the decimal digits `chars[from..to]` denote, if a
/// 64-bit signed integer holds it.
pub fn parse_digits(chars: &Vec<char>, from: usize, to: usize) -> (r: Option<i64>)
    requires
        from <= to <= chars.len(),
        forall|i: int| from <= i < to ==> is_digit(chars@[i]),
    ensures
        match r {
            Some(v) => v == digits_value(chars@.subrange(from as int, to as int)),
            None => digits_value(chars@.subrange(from as int, to as int)) > i64::MAX,
        },
{
    let ghost all = chars@.subrange(from as int, to as int);
    let mut value: u64 = 0;
    let mut j: usize = from;
    assert(all.subrange(0, 0) =~= Seq::<char>::empty());
    while j < to
        invariant
            from <= j <= to <= chars.len(),
            all == chars@.subrange(from as int, to as int),
            forall|i: int| from <= i < to ==> is_digit(chars@[i]),
            value == digits_value(all.subrange(0, j - from)),
            value <= i64::MAX,
        decreases to - j,
    {
        let c: char = chars[j];
        let digit: u64 = (c as u32 - '0' as u32) as u64;
        proof {
            let next = all.subrange(0, j + 1 - from);
            assert(next.drop_last() == all.subrange(0, j - from));
            assert(next.last() == c);
            digits_value_grows(all, j + 1 - from);
        }
        if value > (9223372036854775807u64 - digit) / 10 {
            return None;
        }
        value = value * 10 + digit;
        j += 1;
    }
    assert(all.subrange(0, to - from) == all);
    Some(value as i64)
}

/// A lexer over one source text.
#[derive(Debug)]
pub struct Lexer {
    pub text: String,
    pub chars: Vec<char>,
    pub pos: Position,
    pub current_char: Option<char>,
}

impl Lexer {
    /// The offset of the cursor.
    pub open spec fn index(&self) -> int {
        self.pos.index as int
    }

    /// The name of the file that the text came from.
    pub open spec fn file_name(&self) -> Seq<char> {
        self.pos.file_name@
    }

    /// The cursor stands within the text or at its end, at the position
    /// that belongs to its offset, and the current character is the one at
    /// that offset.
    pub open spec fn well_formed(&self) -> bool {
        &&& self.chars@ == self.text@
        &&& self.text@.len() < i64::MAX
        &&& -1 <= self.index() <= self.text@.len()
        &&& self.pos@ == position_at(self.file_name(), self.text@, self.index())
        &&& self.current_char == if 0 <= self.index() < self.text@.len() {
            Some(self.text@[self.index()])
        } else {
            None
        }
    }

    /// A lexer at the first character of `text`.
    pub fn new(file_name: String, text: String) -> (r: Self)
        requires
            text@.len() < i64::MAX,
        ensures
            r.well_formed(),
            r.index() == 0,
            r.text@ == text@,
            r.file_name() == file_name@,
    {
        let chars = chars_of(text.as_str());
        let mut lexer = Self {
            text: text.clone(),
            chars,
            pos: Position::new(-1, 0, -1, file_name, text),
            current_char: None,
        };
        lexer.advance();
        lexer
    }

    /// The offset of the cursor as an index into the text.
    fn offset(&self) -> (r: usize)
        requires
            self.well_formed(),
            0 <= self.index(),
        ensures
            r == self.index(),
            r <= self.chars.len(),
    {
        let n: usize = self.chars.len();
        assert(self.index() <= n);
        self.pos.index as usize
    }

    /// Moves the cursor to the next character.
    pub fn advance(&mut self)
        requires
            old(self).well_formed(),
            old(self).index() < old(self).text@.len(),
        ensures
            final(self).well_formed(),
            final(self).index() == old(self).index() + 1,
            final(self).text@ == old(self).text@,
            final(self).file_name() == old(self).file_name(),
    {
        proof {
            position_at_bounds(self.file_name(), self.text@, self.index());
        }
        self.pos.advance(self.current_char);
        proof {
            position_at_bounds(self.file_name(), self.text@, self.index());
        }
        if self.pos.index >= 0 && (self.pos.index as u64) < (self.chars.len() as u64) {
            self.current_char = Some(self.chars[self.pos.index as usize]);
        } else {
            self.current_char = None;
        }
    }

    /// Scans the text from the cursor on into tokens, as [`lex_from`]
    /// describes. The value of a float literal is read from `floats`.
    pub fn tokenize(&mut self, floats: &FloatTable) -> (r: Result<Vec<Token>, Halt>)
        requires
            old(self).well_formed(),
            0 <= old(self).index(),
        ensures
            final(self).well_formed(),
            final(self).text@ == old(self).text@,
            final(self).file_name() == old(self).file_name(),
            match r {
                Ok(tokens) => lex_from(
                    old(self).file_name(),
                    old(self).text@,
                    old(self).index(),
                    floats@,
                ) == Ok::<Seq<TokenView>, HaltView>(tokens_view(tokens@)) && final(self).index()
                    == old(self).text@.len(),
                Err(h) => lex_from(
                    old(self).file_name(),
                    old(self).text@,
                    old(self).index(),
                    floats@,
                ) == Err::<Seq<TokenView>, HaltView>(h@),
            },
    {
        let ghost name = self.file_name();
        let ghost text = self.text@;
        let ghost whole = lex_from(name, text, self.index(), floats@);
        let mut tokens: Vec<Token> = Vec::new();
        proof {
            assert(tokens_view(tokens@) =~= Seq::<TokenView>::empty());
            if let Ok(ts) = whole {
                assert(tokens_view(tokens@) + ts =~= ts);
            }
        }
        while self.current_char.is_some()
            invariant
                self.well_formed(),
                0 <= self.index(),
                self.file_name() == name,
                self.text@ == text,
                name == old(self).file_name(),
                text == old(self).text@,
                whole == lex_from(name, text, old(self).index(), floats@),
                whole == prepend(tokens_view(tokens@), lex_from(name, text, self.index(), floats@)),
            decreases text.len() - self.index(),
        {
            let current: char = self.current_char.unwrap();
            let ghost i = self.index();
            let ghost before = tokens_view(tokens@);
            let ghost rest = lex_from(name, text, i, floats@);
            if current == ' ' || current == '\t' {
                self.advance();
            } else if current == '+' || current == '-' || current == '*' || current == '/'
                || current == '(' || current == '^' || current == '=' || current == ')' {
                let kind = if current == '+' {
                    TokenType::Plus
                } else if current == '-' {
                    TokenType::Minus
                } else if current == '*' {
                    TokenType::Multiply
                } else if current == '/' {
                    TokenType::Divide
                } else if current == '(' {
                    TokenType::LParen
                } else if current == '^' {
                    TokenType::Pow
                } else if current == '=' {
                    TokenType::Equal
                } else {
                    TokenType::RParen
                };
                let token = Token::new(kind, Some(self.pos.clone()), None);
                tokens.push(token);
                self.advance();
                proof {
                    let one = seq![token@];
                    let after = lex_from(name, text, i + 1, floats@);
                    assert(rest == prepend(one, after));
                    assert(tokens_view(tokens@) =~= before + one);
                    prepend_twice(before, one, after);
                }
            } else if '0' <= current && current <= '9' {
                let token = match self.construct_number(floats) {
                    Ok(t) => t,
                    Err(h) => {
                        return Err(h);
                    },
                };
                tokens.push(token);
                proof {
                    let one = seq![token@];
                    let after = lex_from(name, text, self.index(), floats@);
                    assert(rest == prepend(one, after));
                    assert(tokens_view(tokens@) =~= before + one);
                    prepend_twice(before, one, after);
                }
            } else if ('a' <= current && current <= 'z') || ('A' <= current && current <= 'Z')
                || current == '_' {
                let token = self.construct_identifier();
                tokens.push(token);
                proof {
                    let one = seq![token@];
                    let after = lex_from(name, text, self.index(), floats@);
                    assert(rest == prepend(one, after));
                    assert(tokens_view(tokens@) =~= before + one);
                    prepend_twice(before, one, after);
                }
            } else {
                let pos_start = self.pos.clone();
                self.advance();
                let mut message = String::new();
                push_char(&mut message, current);
                let error = ErrorType::DisallowedCharError(
                    DisallowedCharError::new(Some(pos_start), Some(self.pos.clone()), message),
                );
                assert(message@ =~= seq![current]);
                return Err(Halt::Error(error));
            }
        }
        let end = Token::new(TokenType::EndOfFile, Some(self.pos.clone()), Some(self.pos.clone()));
        let ghost before = tokens_view(tokens@);
        tokens.push(end);
        assert(tokens_view(tokens@) =~= before + seq![end@]);
        Ok(tokens)
    }

    /// Scans one name from the cursor on: a keyword if the word is one,
    /// else an identifier.
    fn construct_identifier(&mut self) -> (r: Token)
        requires
            old(self).well_formed(),
            0 <= old(self).index() < old(self).text@.len(),
            is_name_start(old(self).text@[old(self).index()]),
        ensures
            final(self).well_formed(),
            final(self).text@ == old(self).text@,
            final(self).file_name() == old(self).file_name(),
            final(self).index() == old(self).index() + 1 + name_run(
                old(self).text@,
                old(self).index() + 1,
            ),
            r@ == ({
                let word = old(self).text@.subrange(old(self).index(), final(self).index());
                TokenView {
                    kind: if is_keyword(word) {
                        TokenKind::Keyword(word)
                    } else {
                        TokenKind::Identifier(word)
                    },
                    start: Some(
                        position_at(old(self).file_name(), old(self).text@, old(self).index()),
                    ),
                    end: Some(
                        position_at(old(self).file_name(), old(self).text@, final(self).index()),
                    ),
                }
            }),
    {
        let ghost text = self.text@;
        let ghost start = self.index();
        let pos_start = self.pos.clone();
        let from: usize = self.offset();
        self.advance();
        loop
            invariant
                self.well_formed(),
                self.text@ == text,
                text == old(self).text@,
                start == old(self).index(),
                from == start,
                self.file_name() == old(self).file_name(),
                start < self.index() <= text.len(),
                start + 1 + name_run(text, start + 1) == self.index() + name_run(
                    text,
                    self.index(),
                ),
            ensures
                self.index() == start + 1 + name_run(text, start + 1),
            decreases text.len() - self.index(),
        {
            match self.current_char {
                Some(c) => {
                    if c == ' ' || c == '\t' || !(is_alphabetic(c) || ('0' <= c && c <= '9') || c
                        == '_') {
                        break ;
                    }
                    self.advance();
                },
                None => {
                    break ;
                },
            }
        }
        let to: usize = self.offset();
        let word = string_of(&self.chars, from, to);
        let kind = if word == "muut".to_owned() {
            TokenType::Keyword(word)
        } else {
            TokenType::Identifier(word)
        };
        Token::new(kind, Some(pos_start), Some(self.pos.clone()))
    }

    /// Scans one numeric literal from the cursor on.
    fn construct_number(&mut self, floats: &FloatTable) -> (r: Result<Token, Halt>)
        requires
            old(self).well_formed(),
            0 <= old(self).index() < old(self).text@.len(),
            is_digit(old(self).text@[old(self).index()]),
        ensures
            final(self).well_formed(),
            final(self).text@ == old(self).text@,
            final(self).file_name() == old(self).file_name(),
            ({
                let text = old(self).text@;
                let start = old(self).index();
                let end = start + 1 + number_run(text, start + 1, 0);
                let faulty = end < text.len() && text[end] == '.';
                match r {
                    Ok(t) => !faulty && final(self).index() == end && number_kind(
                        text.subrange(start, end),
                        floats@,
                    ) == Ok::<TokenKind, HaltView>(t@.kind) && t@.start == Some(
                        position_at(old(self).file_name(), text, start),
                    ) && t@.end == Some(position_at(old(self).file_name(), text, end)),
                    Err(h) => if faulty {
                        h@ == HaltView::Fault(Fault::TooManyDots)
                    } else {
                        number_kind(text.subrange(start, end), floats@) == Err::<
                            TokenKind,
                            HaltView,
                        >(h@)
                    },
                }
            }),
    {
        let ghost text = self.text@;
        let ghost start = self.index();
        let pos_start = self.pos.clone();
        let from: usize = self.offset();
        let mut dots: u8 = 0;
        self.advance();
        loop
            invariant
                self.well_formed(),
                self.text@ == text,
                text == old(self).text@,
                start == old(self).index(),
                from == start,
                self.file_name() == old(self).file_name(),
                start < self.index() <= text.len(),
                dots <= 1,
                start + 1 + number_run(text, start + 1, 0) == self.index() + number_run(
                    text,
                    self.index(),
                    dots as int,
                ),
                forall|i: int|
                    start <= i < self.index() ==> is_digit(text[i]) || (text[i] == '.' && dots
                        == 1),
                dots == 1 ==> exists|i: int| start <= i < self.index() && text[i] == '.',
            ensures
                self.index() == start + 1 + number_run(text, start + 1, 0),
                !(self.index() < text.len() && text[self.index()] == '.'),
            decreases text.len() - self.index(),
        {
            match self.current_char {
                Some(c) => {
                    if c == '.' {
                        if dots >= 1 {
                            return Err(Halt::Fault(Fault::TooManyDots));
                        }
                        dots = 1;
                    } else if !('0' <= c && c <= '9') {
                        break ;
                    }
                    self.advance();
                },
                None => {
                    break ;
                },
            }
        }
        let to: usize = self.offset();
        let ghost lexeme = text.subrange(start, to as int);
        if dots == 0 {
            assert(!lexeme.contains('.'));
            match parse_digits(&self.chars, from, to) {
                Some(v) => Ok(
                    Token::new(TokenType::Int(v), Some(pos_start), Some(self.pos.clone())),
                ),
                None => Err(Halt::Fault(Fault::LiteralOutOfRange)),
            }
        } else {
            proof {
                let i = choose|i: int| start <= i < to && text[i] == '.';
                assert(lexeme[i - start] == '.');
            }
            let literal = string_of(&self.chars, from, to);
            match floats.bits(FloatRequest::Parse(literal)) {
                Ok(b) => Ok(
                    Token::new(TokenType::Float(b), Some(pos_start), Some(self.pos.clone())),
                ),
                Err(q) => Err(Halt::Float(q)),
            }
        }
    }
}

} // verus!
