//! The lexer: from source text to located tokens.
//!
//! Every token is the longest lexeme that starts where the previous one ended.
//! Blanks and comments are skipped, newlines are kept as tokens, and the first
//! character at which no lexeme starts ends the scan with an error.

use vstd::prelude::*;
use vstd::string::*;
use crate::error::{CompilerError, CompilerErrorView, DetailedError, DetailedErrorView, ErrorContext, ErrorContextView};
use crate::security::{limit_message, resource_limit_error, security_error, SecurityConfig, SecurityContext};
use crate::text::{chars_of, push_str, same_text, string_of, string_of_range};
use crate::token::{Token, TokenInfo, TokenInfoView, TokenKind, TokenView};

verus! {

/// Classes of characters that form runs.
#[derive(Debug, Clone, Copy, PartialEq, Eq, Structural)]
pub enum CharClass {
    /// `0` to `9`.
    Digit,
    /// Letters, digits and the underscore.
    Word,
    /// Space, tab and carriage return.
    Blank,
    /// Everything but the line feed.
    LineRest,
}

pub open spec fn is_digit(c: char) -> bool {
    '0' <= c <= '9'
}

pub open spec fn is_word_start(c: char) -> bool {
    ('a' <= c <= 'z') || ('A' <= c <= 'Z') || c == '_'
}

pub open spec fn in_class(class: CharClass, c: char) -> bool {
    match class {
        CharClass::Digit => is_digit(c),
        CharClass::Word => is_word_start(c) || is_digit(c),
        CharClass::Blank => c == ' ' || c == '\t' || c == '\r',
        CharClass::LineRest => c != '\n',
    }
}

/// The end of the longest run of characters of `class` that starts at `i`.
pub open spec fn run_end(s: Seq<char>, i: int, class: CharClass) -> int
    decreases s.len() - i,
{
    if 0 <= i < s.len() && in_class(class, s[i]) {
        run_end(s, i + 1, class)
    } else {
        i
    }
}

/// The end of the number that starts at `i`: digits, then a fraction if a dot is
/// followed by a digit, then an exponent if `e` or `E` is followed by digits
/// with an optional sign before them.
pub open spec fn number_end(s: Seq<char>, i: int) -> int {
    let whole = run_end(s, i, CharClass::Digit);
    let fraction = if 0 <= whole && whole + 1 < s.len() && s[whole] == '.' && is_digit(s[whole + 1]) {
        run_end(s, whole + 1, CharClass::Digit)
    } else {
        whole
    };
    let digits = if 0 <= fraction && fraction + 1 < s.len() && (s[fraction + 1] == '+' || s[fraction
        + 1] == '-') {
        fraction + 2
    } else {
        fraction + 1
    };
    if 0 <= fraction && digits < s.len() && (s[fraction] == 'e' || s[fraction] == 'E') && is_digit(
        s[digits],
    ) {
        run_end(s, digits, CharClass::Digit)
    } else {
        fraction
    }
}

/// The end of the string literal whose opening quote stands just before `j`,
/// if it is closed. A backslash takes the next character with it, unless that
/// is a line feed or missing.
pub open spec fn string_end(s: Seq<char>, j: int) -> Option<int>
    decreases s.len() - j,
{
    if j < 0 || j >= s.len() {
        None
    } else if s[j] == '"' {
        Some(j + 1)
    } else if s[j] == '\\' {
        if j + 1 < s.len() && s[j + 1] != '\n' {
            string_end(s, j + 2)
        } else {
            None
        }
    } else {
        string_end(s, j + 1)
    }
}

/// The end of the block comment whose opening `/*` stands just before `j`, if
/// it is closed. A star that is not followed by a slash takes the next
/// character with it.
pub open spec fn comment_end(s: Seq<char>, j: int) -> Option<int>
    decreases s.len() - j,
{
    if j < 0 || j >= s.len() {
        None
    } else if s[j] == '*' {
        if j + 1 >= s.len() {
            None
        } else if s[j + 1] == '/' {
            Some(j + 2)
        } else {
            comment_end(s, j + 2)
        }
    } else {
        comment_end(s, j + 1)
    }
}

/// The kind of a word: a keyword, or else an identifier.
pub open spec fn word_kind(text: Seq<char>) -> TokenKind {
    if text == "let"@ {
        TokenKind::Let
    } else if text == "func"@ {
        TokenKind::Func
    } else if text == "if"@ {
        TokenKind::If
    } else if text == "else"@ {
        TokenKind::Else
    } else if text == "while"@ {
        TokenKind::While
    } else if text == "for"@ {
        TokenKind::For
    } else if text == "return"@ {
        TokenKind::Return
    } else if text == "true"@ {
        TokenKind::True
    } else if text == "false"@ {
        TokenKind::False
    } else if text == "null"@ {
        TokenKind::Null
    } else if text == "in"@ {
        TokenKind::In
    } else {
        TokenKind::Identifier
    }
}

/// The kind of a character that is a token by itself, whatever follows it.
pub open spec fn single_kind(c: char) -> Option<TokenKind> {
    if c == '+' {
        Some(TokenKind::Plus)
    } else if c == '-' {
        Some(TokenKind::Minus)
    } else if c == '%' {
        Some(TokenKind::Modulo)
    } else if c == '@' {
        Some(TokenKind::DotProduct)
    } else if c == '\u{2207}' {
        Some(TokenKind::Gradient)
    } else if c == '\u{2202}' {
        Some(TokenKind::Partial)
    } else if c == '[' {
        Some(TokenKind::LeftBracket)
    } else if c == ']' {
        Some(TokenKind::RightBracket)
    } else if c == '{' {
        Some(TokenKind::LeftBrace)
    } else if c == '}' {
        Some(TokenKind::RightBrace)
    } else if c == '(' {
        Some(TokenKind::LeftParen)
    } else if c == ')' {
        Some(TokenKind::RightParen)
    } else if c == '^' {
        Some(TokenKind::Caret)
    } else if c == ',' {
        Some(TokenKind::Comma)
    } else if c == ';' {
        Some(TokenKind::Semicolon)
    } else {
        None
    }
}

/// What stands at a position of the source.
#[derive(Debug, Clone, Copy, PartialEq, Eq, Structural)]
pub enum LexemeKind {
    /// A token of the given kind.
    Token(TokenKind),
    /// Blanks or a comment.
    Skipped,
    /// Nothing: no lexeme starts with this character.
    Invalid,
}

/// A lexeme: what it is and where it ends.
pub struct Lexeme {
    pub kind: LexemeKind,
    pub end: int,
}

/// The two-character token `both` if `second` follows at `i + 1`, else `single`.
pub open spec fn pair_or(
    s: Seq<char>,
    i: int,
    second: char,
    both: TokenKind,
    single: LexemeKind,
) -> Lexeme {
    if i + 1 < s.len() && s[i + 1] == second {
        Lexeme { kind: LexemeKind::Token(both), end: i + 2 }
    } else {
        Lexeme { kind: single, end: i + 1 }
    }
}

/// The longest lexeme that starts at `i`, which is a position inside `s`.
pub open spec fn lexeme_at(s: Seq<char>, i: int) -> Lexeme {
    let c = s[i];
    if is_digit(c) {
        Lexeme { kind: LexemeKind::Token(TokenKind::Number), end: number_end(s, i) }
    } else if c == '"' {
        match string_end(s, i + 1) {
            Some(end) => Lexeme { kind: LexemeKind::Token(TokenKind::String), end },
            None => Lexeme { kind: LexemeKind::Invalid, end: i + 1 },
        }
    } else if is_word_start(c) {
        let end = run_end(s, i, CharClass::Word);
        Lexeme { kind: LexemeKind::Token(word_kind(s.subrange(i, end))), end }
    } else if in_class(CharClass::Blank, c) {
        Lexeme { kind: LexemeKind::Skipped, end: run_end(s, i, CharClass::Blank) }
    } else if c == '\n' {
        Lexeme { kind: LexemeKind::Token(TokenKind::Newline), end: i + 1 }
    } else if c == '/' {
        if i + 1 < s.len() && s[i + 1] == '/' {
            Lexeme { kind: LexemeKind::Skipped, end: run_end(s, i + 2, CharClass::LineRest) }
        } else if i + 1 < s.len() && s[i + 1] == '*' && comment_end(s, i + 2) is Some {
            Lexeme { kind: LexemeKind::Skipped, end: comment_end(s, i + 2)->0 }
        } else {
            Lexeme { kind: LexemeKind::Token(TokenKind::Divide), end: i + 1 }
        }
    } else if c == '*' {
        pair_or(s, i, '*', TokenKind::Power, LexemeKind::Token(TokenKind::Multiply))
    } else if c == ':' {
        if i + 1 < s.len() && s[i + 1] == '=' {
            Lexeme { kind: LexemeKind::Token(TokenKind::Assign), end: i + 2 }
        } else {
            pair_or(s, i, ':', TokenKind::AssignConst, LexemeKind::Token(TokenKind::Colon))
        }
    } else if c == '=' {
        pair_or(s, i, '=', TokenKind::Equals, LexemeKind::Invalid)
    } else if c == '!' {
        pair_or(s, i, '=', TokenKind::NotEquals, LexemeKind::Token(TokenKind::Not))
    } else if c == '<' {
        pair_or(s, i, '=', TokenKind::LessEqual, LexemeKind::Token(TokenKind::LessThan))
    } else if c == '>' {
        pair_or(s, i, '=', TokenKind::GreaterEqual, LexemeKind::Token(TokenKind::GreaterThan))
    } else if c == '&' {
        pair_or(s, i, '&', TokenKind::And, LexemeKind::Invalid)
    } else if c == '|' {
        pair_or(s, i, '|', TokenKind::Or, LexemeKind::Token(TokenKind::Pipe))
    } else if c == '.' {
        pair_or(s, i, '.', TokenKind::Range, LexemeKind::Token(TokenKind::Dot))
    } else {
        match single_kind(c) {
            Some(kind) => Lexeme { kind: LexemeKind::Token(kind), end: i + 1 },
            None => Lexeme { kind: LexemeKind::Invalid, end: i + 1 },
        }
    }
}

/// Where the scan goes on after the lexeme at `i`: at its end, and in any case
/// beyond `i`.
pub open spec fn lexeme_next(s: Seq<char>, i: int) -> int {
    let end = lexeme_at(s, i).end;
    if i < end <= s.len() {
        end
    } else {
        i + 1
    }
}

/// The number of line feeds before position `i`.
pub open spec fn newlines_before(s: Seq<char>, i: int) -> nat
    decreases i,
{
    if i <= 0 || i > s.len() {
        0
    } else if s[i - 1] == '\n' {
        newlines_before(s, i - 1) + 1
    } else {
        newlines_before(s, i - 1)
    }
}

/// The position at which the line that holds position `i` starts.
pub open spec fn line_start(s: Seq<char>, i: int) -> int
    decreases i,
{
    if i <= 0 || i > s.len() {
        0
    } else if s[i - 1] == '\n' {
        i
    } else {
        line_start(s, i - 1)
    }
}

/// The 1-based line of position `i`.
pub open spec fn line_of(s: Seq<char>, i: int) -> int {
    newlines_before(s, i) as int + 1
}

/// The 1-based column of position `i`, counted in characters.
pub open spec fn column_of(s: Seq<char>, i: int) -> int {
    i - line_start(s, i) + 1
}

/// The text of the line that holds position `i`, without its line ending.
pub open spec fn source_line(s: Seq<char>, i: int) -> Seq<char> {
    let from = line_start(s, i);
    let to = run_end(s, i, CharClass::LineRest);
    if from < to < s.len() && s[to - 1] == '\r' {
        s.subrange(from, to - 1)
    } else {
        s.subrange(from, to)
    }
}

/// The number of bytes that `c` takes in UTF-8.
pub open spec fn utf8_width(c: char) -> nat {
    if (c as u32) < 0x80 {
        1
    } else if (c as u32) < 0x800 {
        2
    } else if (c as u32) < 0x10000 {
        3
    } else {
        4
    }
}

/// The number of bytes that `t` takes in UTF-8.
pub open spec fn byte_length(t: Seq<char>) -> nat
    decreases t.len(),
{
    if t.len() == 0 {
        0
    } else {
        byte_length(t.drop_last()) + utf8_width(t.last())
    }
}

/// `n`, or the largest `usize` if `n` is larger.
pub open spec fn capped(n: nat) -> usize {
    if n > usize::MAX {
        usize::MAX
    } else {
        n as usize
    }
}

/// The token of kind `kind` that spans `start..end` in `s`.
pub open spec fn located_token(
    s: Seq<char>,
    start: int,
    end: int,
    kind: TokenKind,
) -> TokenInfoView {
    let text = s.subrange(start, end);
    TokenInfoView {
        token: TokenView {
            kind,
            text: if kind.carries_text() {
                text
            } else {
                Seq::empty()
            },
        },
        line: line_of(s, start) as usize,
        column: column_of(s, start) as usize,
        length: capped(byte_length(text)),
        source_text: text,
    }
}

/// The error for the character at `i`, at which no lexeme starts.
pub open spec fn invalid_character(s: Seq<char>, i: int) -> DetailedErrorView {
    let text = s.subrange(i, i + 1);
    DetailedErrorView {
        error: CompilerErrorView::LexicalError {
            message: "Invalid character: '"@ + text + "'"@,
            line: line_of(s, i) as usize,
            column: column_of(s, i) as usize,
        },
        context: Some(
            ErrorContextView {
                file_path: None,
                source_line: source_line(s, i),
                suggestion: Some("Remove or replace '"@ + text + "'"@),
                help: Some("Valid characters include letters, numbers, operators, and delimiters"@),
            },
        ),
    }
}

/// The limit that `token` breaks, if any, as the `count`-th token of the scan.
/// The length of a string literal or an identifier is its length in bytes as
/// written, quotes included.
pub open spec fn limit_failure(
    limits: Option<SecurityConfig>,
    token: TokenInfoView,
    count: nat,
) -> Option<
    DetailedErrorView,
> {
    match limits {
        None => None,
        Some(config) => {
            if token.token.kind == TokenKind::String && token.length > config.max_string_length {
                Some(
                    security_error(
                        limit_message(
                            "String literal length"@,
                            token.length,
                            "length"@,
                            config.max_string_length,
                        ),
                        token.line,
                        "Consider breaking long strings into multiple parts or using string concatenation"@,
                    ),
                )
            } else if token.token.kind == TokenKind::Identifier && token.length
                > config.max_identifier_length {
                Some(
                    security_error(
                        limit_message(
                            "Identifier length"@,
                            token.length,
                            "length"@,
                            config.max_identifier_length,
                        ),
                        token.line,
                        "Consider using shorter, more descriptive names"@,
                    ),
                )
            } else if count > config.max_token_count {
                Some(
                    resource_limit_error(
                        limit_message(
                            "Token count"@,
                            count as usize,
                            "count"@,
                            config.max_token_count,
                        ),
                        "Source code is too complex, consider breaking it into smaller modules"@,
                    ),
                )
            } else {
                None
            }
        },
    }
}

/// How a scan ends: with the tokens found, or with the first error and the
/// position at which a later scan would go on.
pub enum Scan {
    Tokens(Seq<TokenInfoView>),
    Failure { error: DetailedErrorView, resume: int },
}

impl Scan {
    /// This outcome with `before` put in front of its tokens.
    pub open spec fn after(self, before: Seq<TokenInfoView>) -> Scan {
        match self {
            Scan::Tokens(rest) => Scan::Tokens(before + rest),
            failure => failure,
        }
    }
}

/// The tokens of `s` from position `i` on, where `count` tokens came before.
pub open spec fn scan_from(s: Seq<char>, i: int, limits: Option<SecurityConfig>, count: nat) -> Scan
    decreases s.len() - i,
{
    if i < 0 || i >= s.len() {
        Scan::Tokens(Seq::empty())
    } else {
        let next = lexeme_next(s, i);
        match lexeme_at(s, i).kind {
            LexemeKind::Invalid => Scan::Failure { error: invalid_character(s, i), resume: next },
            LexemeKind::Skipped => scan_from(s, next, limits, count),
            LexemeKind::Token(kind) => {
                let token = located_token(s, i, next, kind);
                match limit_failure(limits, token, count + 1) {
                    Some(error) => Scan::Failure { error, resume: next },
                    None => scan_from(s, next, limits, count + 1).after(seq![token]),
                }
            },
        }
    }
}

/// The outcome of scanning `s` from position `i` under the given limits: the
/// size of the whole source is checked first, then the tokens one by one.
pub open spec fn scan_source(s: Seq<char>, i: int, limits: Option<SecurityConfig>) -> Scan {
    match limits {
        Some(config) if capped(byte_length(s)) > config.max_source_size => Scan::Failure {
            error: resource_limit_error(
                limit_message(
                    "Source code size"@,
                    capped(byte_length(s)),
                    "size"@,
                    config.max_source_size,
                ),
                "Consider breaking your code into smaller files or increasing the size limit"@,
            ),
            resume: i,
        },
        _ => scan_from(s, i, limits, 0),
    }
}

/// The contents of the tokens of `v`, in order.
pub open spec fn token_views(v: Seq<TokenInfo>) -> Seq<TokenInfoView> {
    v.map_values(|t: TokenInfo| t@)
}

/// A run ends at or after its start, and inside the text if it starts there.
proof fn lemma_run_end_bounds(s: Seq<char>, i: int, class: CharClass)
    requires
        0 <= i <= s.len(),
    ensures
        i <= run_end(s, i, class) <= s.len(),
        i < s.len() && in_class(class, s[i]) ==> i < run_end(s, i, class),
    decreases s.len() - i,
{
    if i < s.len() && in_class(class, s[i]) {
        lemma_run_end_bounds(s, i + 1, class);
    }
}

fn class_holds(class: CharClass, c: char) -> (r: bool)
    ensures
        r == in_class(class, c),
{
    match class {
        CharClass::Digit => c >= '0' && c <= '9',
        CharClass::Word => (c >= 'a' && c <= 'z') || (c >= 'A' && c <= 'Z') || c == '_' || (c >= '0'
            && c <= '9'),
        CharClass::Blank => c == ' ' || c == '\t' || c == '\r',
        CharClass::LineRest => c != '\n',
    }
}

fn find_run_end(chars: &Vec<char>, start: usize, class: CharClass) -> (end: usize)
    ensures
        end == run_end(chars@, start as int, class),
        start <= end,
        end <= chars.len() || end == start,
{
    let mut i = start;
    while i < chars.len() && class_holds(class, chars[i])
        invariant
            start <= i,
            i <= chars.len() || i == start,
            run_end(chars@, start as int, class) == run_end(chars@, i as int, class),
        decreases chars.len() - i,
    {
        i += 1;
    }
    i
}

pub(crate) fn find_number_end(chars: &Vec<char>, start: usize) -> (end: usize)
    requires
        start < chars.len(),
        is_digit(chars[start as int]),
    ensures
        end == number_end(chars@, start as int),
        start < end <= chars.len(),
{
    let n = chars.len();
    let whole = find_run_end(chars, start, CharClass::Digit);
    proof {
        lemma_run_end_bounds(chars@, start as int, CharClass::Digit);
    }
    let fraction = if whole < n && n - whole > 1 && chars[whole] == '.' && class_holds(
        CharClass::Digit,
        chars[whole + 1],
    ) {
        find_run_end(chars, whole + 1, CharClass::Digit)
    } else {
        whole
    };
    if fraction < n && (chars[fraction] == 'e' || chars[fraction] == 'E') {
        let digits = if n - fraction > 1 && (chars[fraction + 1] == '+' || chars[fraction + 1]
            == '-') {
            fraction + 2
        } else {
            fraction + 1
        };
        if digits < n && class_holds(CharClass::Digit, chars[digits]) {
            find_run_end(chars, digits, CharClass::Digit)
        } else {
            fraction
        }
    } else {
        fraction
    }
}

fn find_string_end(chars: &Vec<char>, start: usize) -> (end: Option<usize>)
    requires
        start <= chars.len(),
    ensures
        match string_end(chars@, start as int) {
            Some(e) => end == Some(e as usize) && start < e <= chars.len(),
            None => end is None,
        },
{
    let n = chars.len();
    let mut j = start;
    while j < n
        invariant
            start <= j <= n,
            n == chars.len(),
            string_end(chars@, start as int) == string_end(chars@, j as int),
        decreases n - j,
    {
        let c = chars[j];
        if c == '"' {
            return Some(j + 1);
        } else if c == '\\' {
            if n - j > 1 && chars[j + 1] != '\n' {
                j += 2;
            } else {
                return None;
            }
        } else {
            j += 1;
        }
    }
    None
}

fn find_comment_end(chars: &Vec<char>, start: usize) -> (end: Option<usize>)
    requires
        start <= chars.len(),
    ensures
        match comment_end(chars@, start as int) {
            Some(e) => end == Some(e as usize) && start < e <= chars.len(),
            None => end is None,
        },
{
    let n = chars.len();
    let mut j = start;
    while j < n
        invariant
            start <= j <= n,
            n == chars.len(),
            comment_end(chars@, start as int) == comment_end(chars@, j as int),
        decreases n - j,
    {
        if chars[j] == '*' {
            if n - j <= 1 {
                return None;
            } else if chars[j + 1] == '/' {
                return Some(j + 2);
            } else {
                j += 2;
            }
        } else {
            j += 1;
        }
    }
    None
}

fn find_word_kind(word: &str) -> (kind: TokenKind)
    ensures
        kind == word_kind(word@),
{
    if same_text(word, "let") {
        TokenKind::Let
    } else if same_text(word, "func") {
        TokenKind::Func
    } else if same_text(word, "if") {
        TokenKind::If
    } else if same_text(word, "else") {
        TokenKind::Else
    } else if same_text(word, "while") {
        TokenKind::While
    } else if same_text(word, "for") {
        TokenKind::For
    } else if same_text(word, "return") {
        TokenKind::Return
    } else if same_text(word, "true") {
        TokenKind::True
    } else if same_text(word, "false") {
        TokenKind::False
    } else if same_text(word, "null") {
        TokenKind::Null
    } else if same_text(word, "in") {
        TokenKind::In
    } else {
        TokenKind::Identifier
    }
}

fn find_single_kind(c: char) -> (kind: Option<TokenKind>)
    ensures
        kind == single_kind(c),
{
    if c == '+' {
        Some(TokenKind::Plus)
    } else if c == '-' {
        Some(TokenKind::Minus)
    } else if c == '%' {
        Some(TokenKind::Modulo)
    } else if c == '@' {
        Some(TokenKind::DotProduct)
    } else if c == '\u{2207}' {
        Some(TokenKind::Gradient)
    } else if c == '\u{2202}' {
        Some(TokenKind::Partial)
    } else if c == '[' {
        Some(TokenKind::LeftBracket)
    } else if c == ']' {
        Some(TokenKind::RightBracket)
    } else if c == '{' {
        Some(TokenKind::LeftBrace)
    } else if c == '}' {
        Some(TokenKind::RightBrace)
    } else if c == '(' {
        Some(TokenKind::LeftParen)
    } else if c == ')' {
        Some(TokenKind::RightParen)
    } else if c == '^' {
        Some(TokenKind::Caret)
    } else if c == ',' {
        Some(TokenKind::Comma)
    } else if c == ';' {
        Some(TokenKind::Semicolon)
    } else {
        None
    }
}

fn find_pair(
    chars: &Vec<char>,
    i: usize,
    second: char,
    both: TokenKind,
    single: LexemeKind,
) -> (found: (LexemeKind, usize))
    requires
        i < chars.len(),
    ensures
        found.0 == pair_or(chars@, i as int, second, both, single).kind,
        found.1 == pair_or(chars@, i as int, second, both, single).end,
        i < found.1 <= chars.len(),
{
    if chars.len() - i > 1 && chars[i + 1] == second {
        (LexemeKind::Token(both), i + 2)
    } else {
        (single, i + 1)
    }
}

/// The longest lexeme that starts at `i`.
fn find_lexeme(chars: &Vec<char>, i: usize) -> (found: (LexemeKind, usize))
    requires
        i < chars.len(),
    ensures
        found.0 == lexeme_at(chars@, i as int).kind,
        found.1 == lexeme_at(chars@, i as int).end,
        found.1 == lexeme_next(chars@, i as int),
        i < found.1 <= chars.len(),
{
    let n = chars.len();
    let c = chars[i];
    if class_holds(CharClass::Digit, c) {
        (LexemeKind::Token(TokenKind::Number), find_number_end(chars, i))
    } else if c == '"' {
        match find_string_end(chars, i + 1) {
            Some(end) => (LexemeKind::Token(TokenKind::String), end),
            None => (LexemeKind::Invalid, i + 1),
        }
    } else if (c >= 'a' && c <= 'z') || (c >= 'A' && c <= 'Z') || c == '_' {
        let end = find_run_end(chars, i, CharClass::Word);
        proof {
            lemma_run_end_bounds(chars@, i as int, CharClass::Word);
        }
        let word = string_of_range(chars, i, end);
        (LexemeKind::Token(find_word_kind(word.as_str())), end)
    } else if class_holds(CharClass::Blank, c) {
        let end = find_run_end(chars, i, CharClass::Blank);
        proof {
            lemma_run_end_bounds(chars@, i as int, CharClass::Blank);
        }
        (LexemeKind::Skipped, end)
    } else if c == '\n' {
        (LexemeKind::Token(TokenKind::Newline), i + 1)
    } else if c == '/' {
        if n - i > 1 && chars[i + 1] == '/' {
            (LexemeKind::Skipped, find_run_end(chars, i + 2, CharClass::LineRest))
        } else if n - i > 1 && chars[i + 1] == '*' {
            match find_comment_end(chars, i + 2) {
                Some(end) => (LexemeKind::Skipped, end),
                None => (LexemeKind::Token(TokenKind::Divide), i + 1),
            }
        } else {
            (LexemeKind::Token(TokenKind::Divide), i + 1)
        }
    } else if c == '*' {
        find_pair(chars, i, '*', TokenKind::Power, LexemeKind::Token(TokenKind::Multiply))
    } else if c == ':' {
        if n - i > 1 && chars[i + 1] == '=' {
            (LexemeKind::Token(TokenKind::Assign), i + 2)
        } else {
            find_pair(chars, i, ':', TokenKind::AssignConst, LexemeKind::Token(TokenKind::Colon))
        }
    } else if c == '=' {
        find_pair(chars, i, '=', TokenKind::Equals, LexemeKind::Invalid)
    } else if c == '!' {
        find_pair(chars, i, '=', TokenKind::NotEquals, LexemeKind::Token(TokenKind::Not))
    } else if c == '<' {
        find_pair(chars, i, '=', TokenKind::LessEqual, LexemeKind::Token(TokenKind::LessThan))
    } else if c == '>' {
        find_pair(chars, i, '=', TokenKind::GreaterEqual, LexemeKind::Token(TokenKind::GreaterThan))
    } else if c == '&' {
        find_pair(chars, i, '&', TokenKind::And, LexemeKind::Invalid)
    } else if c == '|' {
        find_pair(chars, i, '|', TokenKind::Or, LexemeKind::Token(TokenKind::Pipe))
    } else if c == '.' {
        find_pair(chars, i, '.', TokenKind::Range, LexemeKind::Token(TokenKind::Dot))
    } else {
        match find_single_kind(c) {
            Some(kind) => (LexemeKind::Token(kind), i + 1),
            None => (LexemeKind::Invalid, i + 1),
        }
    }
}

fn width_of(c: char) -> (w: usize)
    ensures
        w == utf8_width(c),
{
    let n: u32 = c as u32;
    if n < 0x80 {
        1
    } else if n < 0x800 {
        2
    } else if n < 0x10000 {
        3
    } else {
        4
    }
}

proof fn lemma_byte_length_step(s: Seq<char>, from: int, to: int)
    requires
        0 <= from <= to < s.len(),
    ensures
        byte_length(s.subrange(from, to + 1)) == byte_length(s.subrange(from, to)) + utf8_width(s[to]),
{
    let longer = s.subrange(from, to + 1);
    assert(longer.drop_last() =~= s.subrange(from, to));
    assert(longer.last() == s[to]);
}

/// The UTF-8 length of `chars[from..to]`, capped at the largest `usize`.
fn measure(chars: &Vec<char>, from: usize, to: usize) -> (len: usize)
    requires
        from <= to <= chars.len(),
    ensures
        len == capped(byte_length(chars@.subrange(from as int, to as int))),
{
    let mut len: usize = 0;
    let mut i = from;
    assert(chars@.subrange(from as int, from as int) =~= Seq::<char>::empty());
    while i < to
        invariant
            from <= i <= to <= chars.len(),
            len == capped(byte_length(chars@.subrange(from as int, i as int))),
        decreases to - i,
    {
        let w = width_of(chars[i]);
        proof {
            lemma_byte_length_step(chars@, from as int, i as int);
        }
        if len > usize::MAX - w {
            len = usize::MAX;
        } else {
            len = len + w;
        }
        i += 1;
    }
    len
}

/// A position of the source together with the line it is on.
struct Cursor {
    position: usize,
    newlines: usize,
    line_start: usize,
}

impl Cursor {
    spec fn at(&self, s: Seq<char>) -> bool {
        &&& self.position <= s.len()
        &&& self.newlines == newlines_before(s, self.position as int)
        &&& self.line_start == line_start(s, self.position as int)
        &&& self.line_start <= self.position
        &&& self.newlines <= self.position
    }

    /// Moves the cursor forward to `to`.
    fn advance(&mut self, chars: &Vec<char>, to: usize)
        requires
            old(self).at(chars@),
            old(self).position <= to <= chars.len(),
        ensures
            final(self).at(chars@),
            final(self).position == to,
    {
        while self.position < to
            invariant
                self.at(chars@),
                self.position <= to <= chars.len(),
            decreases to - self.position,
        {
            let c = chars[self.position];
            self.position += 1;
            if c == '\n' {
                self.newlines += 1;
                self.line_start = self.position;
            }
        }
    }
}

/// The lexer for Cortex source code.
///
/// Converts source text into a sequence of tokens with position information.
pub struct Lexer {
    chars: Vec<char>,
    position: usize,
    limits: Option<SecurityConfig>,
}

impl View for Lexer {
    type V = Seq<char>;

    /// The source text.
    closed spec fn view(&self) -> Seq<char> {
        self.chars@
    }
}

impl Lexer {
    /// The position up to which the source has been scanned.
    pub closed spec fn consumed(&self) -> int {
        self.position as int
    }

    /// The limits the lexer enforces, if any.
    pub closed spec fn limits(&self) -> Option<SecurityConfig> {
        self.limits
    }

    #[verifier::type_invariant]
    spec fn well_formed(&self) -> bool {
        self.position <= self.chars.len()
    }

    /// Creates a new lexer for the given source code.
    pub fn new(source: &str) -> (lexer: Self)
        ensures
            lexer@ == source@,
            lexer.consumed() == 0,
            lexer.limits() is None,
    {
        Self { chars: chars_of(source), position: 0, limits: None }
    }

    /// Creates a lexer that enforces the limits of `security`.
    pub fn with_security(source: &str, security: SecurityContext) -> (lexer: Self)
        ensures
            lexer@ == source@,
            lexer.consumed() == 0,
            lexer.limits() == Some(security.config),
    {
        Self { chars: chars_of(source), position: 0, limits: Some(security.config) }
    }

    /// The error for the character at `at`, at which no lexeme starts.
    fn invalid_character_error(chars: &Vec<char>, at: &Cursor) -> (e: DetailedError)
        requires
            at.at(chars@),
            at.position < chars.len(),
        ensures
            e@ == invalid_character(chars@, at.position as int),
    {
        let i = at.position;
        let text = string_of_range(chars, i, i + 1);
        let mut message: Vec<char> = Vec::new();
        push_str("Invalid character: '", &mut message);
        push_str(text.as_str(), &mut message);
        push_str("'", &mut message);
        let mut suggestion: Vec<char> = Vec::new();
        push_str("Remove or replace '", &mut suggestion);
        push_str(text.as_str(), &mut suggestion);
        push_str("'", &mut suggestion);
        let line_end = find_run_end(chars, i, CharClass::LineRest);
        proof {
            lemma_run_end_bounds(chars@, i as int, CharClass::LineRest);
        }
        let line = if at.line_start < line_end && line_end < chars.len() && chars[line_end - 1]
            == '\r' {
            string_of_range(chars, at.line_start, line_end - 1)
        } else {
            string_of_range(chars, at.line_start, line_end)
        };
        assert(message@ =~= "Invalid character: '"@ + text@ + "'"@);
        assert(suggestion@ =~= "Remove or replace '"@ + text@ + "'"@);
        let error = CompilerError::LexicalError {
            message: string_of(&message),
            line: at.newlines + 1,
            column: i - at.line_start + 1,
        };
        let context = ErrorContext::new(line).with_suggestion(string_of(&suggestion)).with_help(
            String::from_str("Valid characters include letters, numbers, operators, and delimiters"),
        );
        DetailedError::new(error).with_context(context)
    }

    /// The token of kind `kind` that spans from the cursor to `end`.
    fn token_at(chars: &Vec<char>, at: &Cursor, end: usize, kind: TokenKind) -> (info: TokenInfo)
        requires
            at.at(chars@),
            at.position < end <= chars.len(),
        ensures
            info@ == located_token(chars@, at.position as int, end as int, kind),
    {
        let text = string_of_range(chars, at.position, end);
        let token = Token::from_parts(kind, text.clone());
        let length = measure(chars, at.position, end);
        TokenInfo::new(token, at.newlines + 1, at.position - at.line_start + 1, length, text)
    }

    /// The limit that `token` breaks as the `count`-th token, if it breaks one.
    fn check_limits(
        limits: &Option<SecurityConfig>,
        token: &TokenInfo,
        count: usize,
    ) -> (r: Result<(), DetailedError>)
        ensures
            match limit_failure(*limits, token@, count as nat) {
                Some(error) => r matches Err(e) && e@ == error,
                None => r is Ok,
            },
    {
        match limits {
            None => Ok(()),
            Some(config) => {
                match token.token.kind() {
                    TokenKind::String => {
                        config.validate_string_length(token.length, token.line, token.column)?;
                    },
                    TokenKind::Identifier => {
                        config.validate_identifier_length(token.length, token.line, token.column)?;
                    },
                    _ => {},
                }
                config.validate_token_count(count)
            },
        }
    }

    /// Tokenizes the source from where the previous scan stopped to its end.
    ///
    /// Returns the tokens in source order, each with its line, column, length in
    /// bytes and text; or the first error: a character at which no lexeme
    /// starts, or a limit that is exceeded.
    pub fn tokenize(&mut self) -> (r: Result<Vec<TokenInfo>, DetailedError>)
        ensures
            final(self)@ == old(self)@,
            final(self).limits() == old(self).limits(),
            match scan_source(old(self)@, old(self).consumed(), old(self).limits()) {
                Scan::Tokens(tokens) => {
                    &&& r matches Ok(found)
                    &&& token_views(found@) == tokens
                    &&& final(self).consumed() == old(self)@.len()
                },
                Scan::Failure { error, resume } => {
                    &&& r matches Err(e)
                    &&& e@ == error
                    &&& final(self).consumed() == resume
                },
            },
    {
        proof {
            use_type_invariant(&*self);
        }
        let n = self.chars.len();
        match &self.limits {
            Some(config) => {
                let size = measure(&self.chars, 0, n);
                assert(self.chars@.subrange(0, n as int) =~= self.chars@);
                match config.validate_source_size(size) {
                    Err(e) => {
                        return Err(e);
                    },
                    Ok(_) => {},
                }
            },
            None => {},
        }
        let start = self.position;
        let mut at = Cursor { position: 0, newlines: 0, line_start: 0 };
        at.advance(&self.chars, start);
        let mut tokens: Vec<TokenInfo> = Vec::new();
        assert(token_views(tokens@) =~= Seq::<TokenInfoView>::empty());
        assert(scan_from(self@, start as int, self.limits(), 0).after(Seq::empty())
            == scan_from(self@, start as int, self.limits(), 0)) by {
            let whole = scan_from(self@, start as int, self.limits(), 0);
            if let Scan::Tokens(rest) = whole {
                assert(Seq::<TokenInfoView>::empty() + rest =~= rest);
            }
        }
        while at.position < n
            invariant
                n == self.chars.len(),
                self.chars == old(self).chars,
                self.limits == old(self).limits,
                at.at(self@),
                start <= at.position,
                tokens.len() <= at.position - start,
                scan_source(old(self)@, old(self).consumed(), old(self).limits()) == scan_from(
                    self@,
                    start as int,
                    self.limits(),
                    0,
                ),
                scan_from(self@, start as int, self.limits(), 0) == scan_from(
                    self@,
                    at.position as int,
                    self.limits(),
                    tokens.len() as nat,
                ).after(token_views(tokens@)),
            decreases n - at.position,
        {
            let found = find_lexeme(&self.chars, at.position);
            let end = found.1;
            match found.0 {
                LexemeKind::Invalid => {
                    let error = Self::invalid_character_error(&self.chars, &at);
                    self.position = end;
                    return Err(error);
                },
                LexemeKind::Skipped => {},
                LexemeKind::Token(kind) => {
                    let token = Self::token_at(&self.chars, &at, end, kind);
                    match Self::check_limits(&self.limits, &token, tokens.len() + 1) {
                        Err(error) => {
                            self.position = end;
                            return Err(error);
                        },
                        Ok(_) => {},
                    }
                    proof {
                        let before = token_views(tokens@);
                        let rest = scan_from(self@, end as int, self.limits(), (tokens.len() + 1) as nat);
                        assert(token_views(tokens@.push(token)) =~= before.push(token@));
                        if let Scan::Tokens(more) = rest {
                            assert(before + (seq![token@] + more) =~= before.push(token@) + more);
                        }
                    }
                    tokens.push(token);
                },
            }
            at.advance(&self.chars, end);
        }
        self.position = n;
        proof {
            assert(token_views(tokens@) + Seq::<TokenInfoView>::empty() =~= token_views(tokens@));
        }
        Ok(tokens)
    }
}

} // verus!
