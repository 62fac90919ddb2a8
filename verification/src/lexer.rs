use vstd::prelude::*;
use crate::text::push_char;
use crate::value_type::ValueType;

verus! {

/// The tokens of the Light language.
///
/// `Real` keeps the literal's source text; the float it denotes is read from
/// it where a float is needed (code generation).
#[derive(Debug)]
pub enum LogosToken {
    If,
    Else,
    While,
    For,
    Loop,
    Let,
    Break,
    Continue,
    Function,
    Struct,
    Export,
    Return,
    Import,
    Equal,
    Plus,
    Minus,
    Multiply,
    Divide,
    Modulo,
    Dot,
    Not,
    And,
    Or,
    Equality,
    NegEquality,
    Less,
    More,
    LessEqual,
    MoreEqual,
    LeftBrace,
    RightBrace,
    LeftBracket,
    RightBracket,
    LeftParenthesis,
    RightParenthesis,
    Comma,
    Semicolon,
    Colon,
    DoubleColon,
    True,
    False,
    Quote(String),
    CharLiteral(char),
    Pointer,
    Dereference,
    AddressOf,
    Null,
    Type(ValueType),
    Number(i64),
    Real(String),
    Identifier(String),
    EndOfFile,
    Comment,
    NewLine,
    Error,
}

/// A token with its text payloads seen as character sequences.
pub enum SpecToken {
    If,
    Else,
    While,
    For,
    Loop,
    Let,
    Break,
    Continue,
    Function,
    Struct,
    Export,
    Return,
    Import,
    Equal,
    Plus,
    Minus,
    Multiply,
    Divide,
    Modulo,
    Dot,
    Not,
    And,
    Or,
    Equality,
    NegEquality,
    Less,
    More,
    LessEqual,
    MoreEqual,
    LeftBrace,
    RightBrace,
    LeftBracket,
    RightBracket,
    LeftParenthesis,
    RightParenthesis,
    Comma,
    Semicolon,
    Colon,
    DoubleColon,
    True,
    False,
    Quote(Seq<char>),
    CharLiteral(char),
    Pointer,
    Dereference,
    AddressOf,
    Null,
    Type(ValueType),
    Number(i64),
    Real(Seq<char>),
    Identifier(Seq<char>),
    EndOfFile,
    Comment,
    NewLine,
    Error,
}

impl View for LogosToken {
    type V = SpecToken;

    open spec fn view(&self) -> SpecToken {
        match self {
            LogosToken::If => SpecToken::If,
            LogosToken::Else => SpecToken::Else,
            LogosToken::While => SpecToken::While,
            LogosToken::For => SpecToken::For,
            LogosToken::Loop => SpecToken::Loop,
            LogosToken::Let => SpecToken::Let,
            LogosToken::Break => SpecToken::Break,
            LogosToken::Continue => SpecToken::Continue,
            LogosToken::Function => SpecToken::Function,
            LogosToken::Struct => SpecToken::Struct,
            LogosToken::Export => SpecToken::Export,
            LogosToken::Return => SpecToken::Return,
            LogosToken::Import => SpecToken::Import,
            LogosToken::Equal => SpecToken::Equal,
            LogosToken::Plus => SpecToken::Plus,
            LogosToken::Minus => SpecToken::Minus,
            LogosToken::Multiply => SpecToken::Multiply,
            LogosToken::Divide => SpecToken::Divide,
            LogosToken::Modulo => SpecToken::Modulo,
            LogosToken::Dot => SpecToken::Dot,
            LogosToken::Not => SpecToken::Not,
            LogosToken::And => SpecToken::And,
            LogosToken::Or => SpecToken::Or,
            LogosToken::Equality => SpecToken::Equality,
            LogosToken::NegEquality => SpecToken::NegEquality,
            LogosToken::Less => SpecToken::Less,
            LogosToken::More => SpecToken::More,
            LogosToken::LessEqual => SpecToken::LessEqual,
            LogosToken::MoreEqual => SpecToken::MoreEqual,
            LogosToken::LeftBrace => SpecToken::LeftBrace,
            LogosToken::RightBrace => SpecToken::RightBrace,
            LogosToken::LeftBracket => SpecToken::LeftBracket,
            LogosToken::RightBracket => SpecToken::RightBracket,
            LogosToken::LeftParenthesis => SpecToken::LeftParenthesis,
            LogosToken::RightParenthesis => SpecToken::RightParenthesis,
            LogosToken::Comma => SpecToken::Comma,
            LogosToken::Semicolon => SpecToken::Semicolon,
            LogosToken::Colon => SpecToken::Colon,
            LogosToken::DoubleColon => SpecToken::DoubleColon,
            LogosToken::True => SpecToken::True,
            LogosToken::False => SpecToken::False,
            LogosToken::Quote(s) => SpecToken::Quote(s@),
            LogosToken::CharLiteral(c) => SpecToken::CharLiteral(*c),
            LogosToken::Pointer => SpecToken::Pointer,
            LogosToken::Dereference => SpecToken::Dereference,
            LogosToken::AddressOf => SpecToken::AddressOf,
            LogosToken::Null => SpecToken::Null,
            LogosToken::Type(t) => SpecToken::Type(*t),
            LogosToken::Number(n) => SpecToken::Number(*n),
            LogosToken::Real(s) => SpecToken::Real(s@),
            LogosToken::Identifier(s) => SpecToken::Identifier(s@),
            LogosToken::EndOfFile => SpecToken::EndOfFile,
            LogosToken::Comment => SpecToken::Comment,
            LogosToken::NewLine => SpecToken::NewLine,
            LogosToken::Error => SpecToken::Error,
        }
    }
}

// ---------------------------------------------------------------------------
// Character classes and positions
// ---------------------------------------------------------------------------

/// Number of bytes of a character in UTF-8.
pub open spec fn utf8_width(c: char) -> nat {
    if (c as u32) < 0x80 {
        1
    } else if (c as u32) < 0x800 {
        2
    } else if (c as u32) < 0x10000 {
        3
    } else {
        4
    }
}

/// Number of bytes of a character sequence in UTF-8.
pub open spec fn byte_len(s: Seq<char>) -> nat
    decreases s.len(),
{
    if s.len() == 0 {
        0
    } else {
        byte_len(s.drop_last()) + utf8_width(s.last())
    }
}

/// Byte offset of the character at index `i`.
pub open spec fn byte_offset(c: Seq<char>, i: int) -> nat {
    byte_len(c.take(i))
}

pub open spec fn is_digit(c: char) -> bool {
    '0' <= c && c <= '9'
}

pub open spec fn is_ident_start(c: char) -> bool {
    ('a' <= c && c <= 'z') || ('A' <= c && c <= 'Z') || c == '_'
}

pub open spec fn is_ident_char(c: char) -> bool {
    is_ident_start(c) || is_digit(c)
}

/// Blank characters skipped between tokens (newlines apart).
pub open spec fn is_blank(c: char) -> bool {
    c == ' ' || c == '\t' || c == '\u{b}' || c == '\r'
}

/// First index `j >= i` whose character is not a digit.
pub open spec fn digits_end(c: Seq<char>, i: int) -> int
    decreases c.len() - i,
{
    if i < 0 || i >= c.len() || !is_digit(c[i]) {
        i
    } else {
        digits_end(c, i + 1)
    }
}

/// First index `j >= i` whose character cannot continue an identifier.
pub open spec fn word_end(c: Seq<char>, i: int) -> int
    decreases c.len() - i,
{
    if i < 0 || i >= c.len() || !is_ident_char(c[i]) {
        i
    } else {
        word_end(c, i + 1)
    }
}

/// First index `j >= i` holding `ch`.
pub open spec fn find_char(c: Seq<char>, i: int, ch: char) -> Option<int>
    decreases c.len() - i,
{
    if i < 0 || i >= c.len() {
        None
    } else if c[i] == ch {
        Some(i)
    } else {
        find_char(c, i + 1, ch)
    }
}

/// Value of a run of decimal digits.
pub open spec fn digits_value(s: Seq<char>) -> int
    decreases s.len(),
{
    if s.len() == 0 {
        0
    } else {
        digits_value(s.drop_last()) * 10 + (s.last() as int - '0' as int)
    }
}

/// The token for a word (a maximal run of identifier characters).
pub open spec fn word_token(w: Seq<char>) -> SpecToken {
    if w == seq!['i', 'f'] { SpecToken::If }
    else if w == seq!['e', 'l', 's', 'e'] { SpecToken::Else }
    else if w == seq!['w', 'h', 'i', 'l', 'e'] { SpecToken::While }
    else if w == seq!['f', 'o', 'r'] { SpecToken::For }
    else if w == seq!['l', 'o', 'o', 'p'] { SpecToken::Loop }
    else if w == seq!['l', 'e', 't'] { SpecToken::Let }
    else if w == seq!['b', 'r', 'e', 'a', 'k'] { SpecToken::Break }
    else if w == seq!['c', 'o', 'n', 't', 'i', 'n', 'u', 'e'] { SpecToken::Continue }
    else if w == seq!['f', 'n'] { SpecToken::Function }
    else if w == seq!['s', 't', 'r', 'u', 'c', 't'] { SpecToken::Struct }
    else if w == seq!['e', 'x', 'p', 'o', 'r', 't'] { SpecToken::Export }
    else if w == seq!['r', 'e', 't', 'u', 'r', 'n'] { SpecToken::Return }
    else if w == seq!['i', 'm', 'p', 'o', 'r', 't'] { SpecToken::Import }
    else if w == seq!['n', 'o', 't'] { SpecToken::Not }
    else if w == seq!['a', 'n', 'd'] { SpecToken::And }
    else if w == seq!['o', 'r'] { SpecToken::Or }
    else if w == seq!['t', 'r', 'u', 'e'] { SpecToken::True }
    else if w == seq!['f', 'a', 'l', 's', 'e'] { SpecToken::False }
    else if w == seq!['p', 't', 'r'] { SpecToken::Pointer }
    else if w == seq!['d', 'e', 'r', 'e', 'f'] { SpecToken::Dereference }
    else if w == seq!['a', 'd', 'd', 'r', 'o', 'f'] { SpecToken::AddressOf }
    else if w == seq!['n', 'u', 'l', 'l'] { SpecToken::Null }
    else if w == seq!['n', 'u', 'm', 'b', 'e', 'r'] { SpecToken::Type(ValueType::Number) }
    else if w == seq!['r', 'e', 'a', 'l'] { SpecToken::Type(ValueType::Real) }
    else if w == seq!['b', 'o', 'o', 'l'] { SpecToken::Type(ValueType::Bool) }
    else if w == seq!['s', 't', 'r', 'i', 'n', 'g'] { SpecToken::Type(ValueType::String) }
    else if w == seq!['v', 'o', 'i', 'd'] { SpecToken::Type(ValueType::Void) }
    else if w == seq!['c', 'h', 'a', 'r'] { SpecToken::Type(ValueType::Char) }
    else { SpecToken::Identifier(w) }
}

/// The token of a single punctuation character that no longer token starts with.
pub open spec fn single_char_token(ch: char) -> Option<SpecToken> {
    if ch == '+' { Some(SpecToken::Plus) }
    else if ch == '-' { Some(SpecToken::Minus) }
    else if ch == '*' { Some(SpecToken::Multiply) }
    else if ch == '%' { Some(SpecToken::Modulo) }
    else if ch == '.' { Some(SpecToken::Dot) }
    else if ch == '{' { Some(SpecToken::LeftBrace) }
    else if ch == '}' { Some(SpecToken::RightBrace) }
    else if ch == '[' { Some(SpecToken::LeftBracket) }
    else if ch == ']' { Some(SpecToken::RightBracket) }
    else if ch == '(' { Some(SpecToken::LeftParenthesis) }
    else if ch == ')' { Some(SpecToken::RightParenthesis) }
    else if ch == ',' { Some(SpecToken::Comma) }
    else if ch == ';' { Some(SpecToken::Semicolon) }
    else if ch == '\0' { Some(SpecToken::EndOfFile) }
    else { None }
}

/// Outcome of reading one token at character index `i` (not blank, not a
/// newline, not a comment).
pub enum Scan {
    /// A token ending (exclusively) at character index `end`; `unclosed` marks
    /// a string literal without its closing quote.
    Tok { tok: SpecToken, end: int, unclosed: bool },
}

/// Reads the token that starts at character index `i`, by longest match.
pub open spec fn scan_token(c: Seq<char>, i: int) -> Scan {
    let ch = c[i];
    let next = if i + 1 < c.len() { Some(c[i + 1]) } else { None };
    if ch == '=' {
        if next == Some('=') {
            Scan::Tok { tok: SpecToken::Equality, end: i + 2, unclosed: false }
        } else {
            Scan::Tok { tok: SpecToken::Equal, end: i + 1, unclosed: false }
        }
    } else if ch == '!' {
        if next == Some('=') {
            Scan::Tok { tok: SpecToken::NegEquality, end: i + 2, unclosed: false }
        } else {
            Scan::Tok { tok: SpecToken::Error, end: i + 1, unclosed: false }
        }
    } else if ch == '<' {
        if next == Some('=') {
            Scan::Tok { tok: SpecToken::LessEqual, end: i + 2, unclosed: false }
        } else {
            Scan::Tok { tok: SpecToken::Less, end: i + 1, unclosed: false }
        }
    } else if ch == '>' {
        if next == Some('=') {
            Scan::Tok { tok: SpecToken::MoreEqual, end: i + 2, unclosed: false }
        } else {
            Scan::Tok { tok: SpecToken::More, end: i + 1, unclosed: false }
        }
    } else if ch == ':' {
        if next == Some(':') {
            Scan::Tok { tok: SpecToken::DoubleColon, end: i + 2, unclosed: false }
        } else {
            Scan::Tok { tok: SpecToken::Colon, end: i + 1, unclosed: false }
        }
    } else if ch == '/' {
        Scan::Tok { tok: SpecToken::Divide, end: i + 1, unclosed: false }
    } else if ch == '"' {
        match find_char(c, i + 1, '"') {
            // Lexing resumes after the closing quote.
            Some(j) => Scan::Tok { tok: SpecToken::Quote(c.subrange(i + 1, j)), end: j + 1, unclosed: false },
            None => Scan::Tok { tok: SpecToken::Error, end: i + 1, unclosed: true },
        }
    } else if ch == '\'' {
        if i + 2 < c.len() && c[i + 2] == '\'' {
            // Lexing resumes after the closing quote.
            Scan::Tok { tok: SpecToken::CharLiteral(c[i + 1]), end: i + 3, unclosed: false }
        } else {
            Scan::Tok { tok: SpecToken::Error, end: i + 1, unclosed: false }
        }
    } else if is_digit(ch) {
        let j = digits_end(c, i);
        if j < c.len() && c[j] == '.' {
            let k = digits_end(c, j + 1);
            Scan::Tok { tok: SpecToken::Real(c.subrange(i, k)), end: k, unclosed: false }
        } else if digits_value(c.subrange(i, j)) <= i64::MAX {
            Scan::Tok {
                tok: SpecToken::Number(digits_value(c.subrange(i, j)) as i64),
                end: j,
                unclosed: false,
            }
        } else {
            Scan::Tok { tok: SpecToken::Error, end: j, unclosed: false }
        }
    } else if is_ident_start(ch) {
        let j = word_end(c, i);
        Scan::Tok { tok: word_token(c.subrange(i, j)), end: j, unclosed: false }
    } else {
        match single_char_token(ch) {
            Some(t) => Scan::Tok { tok: t, end: i + 1, unclosed: false },
            None => Scan::Tok { tok: SpecToken::Error, end: i + 1, unclosed: false },
        }
    }
}

/// Outcome of one call of the lexer.
pub enum Step {
    /// A token spanning characters `[start, end)`, read with `line_count`
    /// newlines seen so far, the last one ending at byte `last_newline`.
    Tok { tok: SpecToken, start: int, end: int, line_count: nat, last_newline: nat, unclosed: bool },
    /// No token is left.
    End { line_count: nat, last_newline: nat },
}

/// One call of the lexer from character index `i`: skips blanks, newlines
/// (counting them) and comments (with the newline that ends them, which is not
/// counted, or up to the end of the text), then reads a token.
pub open spec fn lex_step(c: Seq<char>, i: int, line_count: nat, last_newline: nat) -> Step
    decreases c.len() - i,
{
    if i < 0 || i >= c.len() {
        Step::End { line_count, last_newline }
    } else if is_blank(c[i]) {
        lex_step(c, i + 1, line_count, last_newline)
    } else if c[i] == '\n' {
        lex_step(c, i + 1, line_count + 1, byte_offset(c, i + 1))
    } else if c[i] == '/' && i + 1 < c.len() && c[i + 1] == '/' {
        match find_char(c, i + 2, '\n') {
            // The comment's newline goes with it, and is not counted as a line.
            Some(j) => if i < j && j < c.len() {
                lex_step(c, j + 1, line_count, last_newline)
            } else {
                Step::End { line_count, last_newline }
            },
            None => Step::End { line_count, last_newline },
        }
    } else {
        match scan_token(c, i) {
            Scan::Tok { tok, end, unclosed } => Step::Tok {
                tok,
                start: i,
                end,
                line_count,
                last_newline,
                unclosed,
            },
        }
    }
}

} // verus!

verus! {

// ---------------------------------------------------------------------------
// Facts about byte offsets
// ---------------------------------------------------------------------------

pub proof fn lemma_byte_offset_step(c: Seq<char>, i: int)
    requires
        0 <= i < c.len(),
    ensures
        byte_offset(c, i + 1) == byte_offset(c, i) + utf8_width(c[i]),
{
    assert(c.take(i + 1).drop_last() =~= c.take(i));
}

pub proof fn lemma_byte_offset_grows(c: Seq<char>, i: int, j: int)
    requires
        0 <= i <= j <= c.len(),
    ensures
        byte_offset(c, i) + (j - i) <= byte_offset(c, j),
    decreases j - i,
{
    if i < j {
        lemma_byte_offset_grows(c, i, j - 1);
        lemma_byte_offset_step(c, j - 1);
    }
}

pub proof fn lemma_byte_offset_full(c: Seq<char>)
    ensures
        byte_offset(c, c.len() as int) == byte_len(c),
{
    assert(c.take(c.len() as int) =~= c);
}

pub proof fn lemma_lex_step_range(c: Seq<char>, i: int, lc: nat, ln: nat)
    requires
        0 <= i <= c.len(),
    ensures
        lex_step(c, i, lc, ln) matches Step::Tok { start, end, .. } ==> i <= start < end <= c.len(),
    decreases c.len() - i,
{
    if i < c.len() {
        if is_blank(c[i]) {
            lemma_lex_step_range(c, i + 1, lc, ln);
        } else if c[i] == '\n' {
            lemma_lex_step_range(c, i + 1, lc + 1, byte_offset(c, i + 1));
        } else if c[i] == '/' && i + 1 < c.len() && c[i + 1] == '/' {
            match find_char(c, i + 2, '\n') {
                Some(j) => {
                    if i < j && j < c.len() {
                        lemma_lex_step_range(c, j + 1, lc, ln);
                    }
                },
                None => {},
            }
        } else {
            lemma_scan_range(c, i);
        }
    }
}

pub proof fn lemma_digits_end(c: Seq<char>, i: int)
    requires
        0 <= i <= c.len(),
    ensures
        i <= digits_end(c, i) <= c.len(),
        i < c.len() && is_digit(c[i]) ==> i < digits_end(c, i),
        digits_end(c, i) < c.len() ==> !is_digit(c[digits_end(c, i)]),
        forall|k: int| i <= k < digits_end(c, i) ==> is_digit(#[trigger] c[k]),
    decreases c.len() - i,
{
    if i < c.len() && is_digit(c[i]) {
        lemma_digits_end(c, i + 1);
    }
}

pub proof fn lemma_word_end(c: Seq<char>, i: int)
    requires
        0 <= i <= c.len(),
    ensures
        i <= word_end(c, i) <= c.len(),
        i < c.len() && is_ident_char(c[i]) ==> i < word_end(c, i),
        word_end(c, i) < c.len() ==> !is_ident_char(c[word_end(c, i)]),
        forall|k: int| i <= k < word_end(c, i) ==> is_ident_char(#[trigger] c[k]),
    decreases c.len() - i,
{
    if i < c.len() && is_ident_char(c[i]) {
        lemma_word_end(c, i + 1);
    }
}

pub proof fn lemma_find_char(c: Seq<char>, i: int, ch: char)
    requires
        0 <= i,
    ensures
        find_char(c, i, ch) matches Some(j) ==> i <= j < c.len() && c[j] == ch,
        find_char(c, i, ch) matches Some(j) ==> forall|k: int| i <= k < j ==> c[k] != ch,
        find_char(c, i, ch) is None ==> forall|k: int| i <= k < c.len() ==> c[k] != ch,
    decreases c.len() - i,
{
    if i < c.len() && c[i] != ch {
        lemma_find_char(c, i + 1, ch);
    }
}

pub proof fn lemma_scan_range(c: Seq<char>, i: int)
    requires
        0 <= i < c.len(),
    ensures
        scan_token(c, i) matches Scan::Tok { end, .. } ==> i < end <= c.len(),
{
    let ch = c[i];
    if ch == '"' {
        lemma_find_char(c, i + 1, '"');
    } else if is_digit(ch) {
        lemma_digits_end(c, i);
        let j = digits_end(c, i);
        if j < c.len() && c[j] == '.' {
            lemma_digits_end(c, j + 1);
        }
    } else if is_ident_start(ch) {
        lemma_word_end(c, i);
    }
}

/// A word starts at a letter or `_` and runs over every following letter,
/// digit and `_`: it ends at the end of the text or at the first other
/// character, and its token is the one that the whole word names.
pub proof fn law_word_is_longest_run(c: Seq<char>, i: int)
    requires
        0 <= i < c.len(),
        ('a' <= c[i] <= 'z') || ('A' <= c[i] <= 'Z') || c[i] == '_',
    ensures
        scan_token(c, i) matches Scan::Tok { tok, end, unclosed } && {
            &&& i < end <= c.len()
            &&& !unclosed
            &&& tok == word_token(c.subrange(i, end))
            &&& forall|k: int|
                i <= k < end ==> ('a' <= #[trigger] c[k] <= 'z') || ('A' <= c[k] <= 'Z') || ('0' <= c[k]
                    <= '9') || c[k] == '_'
            &&& end < c.len() ==> !(('a' <= c[end] <= 'z') || ('A' <= c[end] <= 'Z') || ('0' <= c[end]
                <= '9') || c[end] == '_')
        },
{
    lemma_word_end(c, i);
}

/// The tokens produced by lexing from character index `i` to the end, each
/// with its line number and column (in bytes from the line start), and the
/// number of string literals found unclosed (`None` only where a step would not
/// move forward, which `lemma_lex_all_some` rules out).
pub open spec fn lex_all(c: Seq<char>, i: int, lc: nat, ln: nat) -> Option<(Seq<(SpecToken, nat, int)>, nat)>
    decreases c.len() - i,
{
    match lex_step(c, i, lc, ln) {
        Step::End { .. } => Some((Seq::empty(), 0)),
        Step::Tok { tok, start, end, line_count, last_newline, unclosed } => {
            if i < end && end <= c.len() {
                match lex_all(c, end, line_count, last_newline) {
                    Some((rest, n)) => Some((
                        seq![(tok, line_count + 1, byte_offset(c, start) - last_newline)] + rest,
                        if unclosed { n + 1 } else { n },
                    )),
                    None => None,
                }
            } else {
                None
            }
        },
    }
}

/// The tokens of a whole source text.
pub open spec fn lex_source(s: Seq<char>) -> Option<(Seq<(SpecToken, nat, int)>, nat)> {
    lex_all(s, 0, 0, 0)
}

/// Every text can be lexed: each step moves forward.
pub proof fn lemma_lex_all_some(c: Seq<char>, i: int, lc: nat, ln: nat)
    requires
        0 <= i <= c.len(),
    ensures
        lex_all(c, i, lc, ln) is Some,
    decreases c.len() - i,
{
    lemma_lex_step_range(c, i, lc, ln);
    if let Step::Tok { end, line_count, last_newline, .. } = lex_step(c, i, lc, ln) {
        lemma_lex_all_some(c, end, line_count, last_newline);
    }
}

/// Every source text can be lexed.
pub proof fn law_every_source_lexes(s: Seq<char>)
    ensures
        lex_source(s) is Some,
{
    lemma_lex_all_some(s, 0, 0, 0);
}

// ---------------------------------------------------------------------------
// Executable lexer
// ---------------------------------------------------------------------------

/// Line bookkeeping carried by the lexer.
#[derive(Debug)]
pub struct TokenInfo {
    pub line_count: usize,
    pub last_newline_position: usize,
}

impl TokenInfo {
    pub fn new() -> (r: Self)
        ensures
            r.line_count == 0,
            r.last_newline_position == 0,
    {
        TokenInfo { line_count: 0, last_newline_position: 0 }
    }

    pub fn increase_line_number(&mut self, position: usize)
        requires
            old(self).line_count < usize::MAX,
        ensures
            final(self).line_count == old(self).line_count + 1,
            final(self).last_newline_position == position,
    {
        self.line_count = self.line_count + 1;
        self.last_newline_position = position;
    }

    /// Column of a token starting at byte `tk_begin_position` on the current line.
    pub fn last_newline_index(&self, tk_begin_position: usize) -> (r: usize)
        requires
            tk_begin_position >= self.last_newline_position,
        ensures
            r == tk_begin_position - self.last_newline_position,
    {
        tk_begin_position - self.last_newline_position
    }
}

impl Default for TokenInfo {
    fn default() -> (r: Self)
        ensures
            r.line_count == 0,
            r.last_newline_position == 0,
    {
        TokenInfo { line_count: 0, last_newline_position: 0 }
    }
}

/// A token with the line (counted from 1) and the column (in bytes from the
/// start of its line) where it starts.
#[derive(Debug)]
pub struct Token {
    pub logos_tk: LogosToken,
    pub line_number: usize,
    pub column_number: usize,
}

/// A lexer over a source text.
pub struct Lexer {
    chars: Vec<char>,
    start: usize,
    pos: usize,
    start_byte: usize,
    byte: usize,
    pub extras: TokenInfo,
    unclosed: bool,
}

/// The characters of a string slice, in order.
fn source_chars(s: &str) -> (v: Vec<char>)
    ensures
        v@ == s@,
{
    broadcast use vstd::string::axiom_spec_iter;

    let mut v: Vec<char> = Vec::new();
    for c in it: s.chars()
        invariant
            it.seq() == s@,
            v@ == it.seq().take(it.index()),
    {
        v.push(c);
    }
    v
}

fn width(c: char) -> (w: usize)
    ensures
        w == utf8_width(c),
{
    let u = c as u32;
    if u < 0x80 {
        1
    } else if u < 0x800 {
        2
    } else if u < 0x10000 {
        3
    } else {
        4
    }
}

fn is_digit_exec(c: char) -> (r: bool)
    ensures
        r == is_digit(c),
{
    '0' <= c && c <= '9'
}

fn is_ident_start_exec(c: char) -> (r: bool)
    ensures
        r == is_ident_start(c),
{
    ('a' <= c && c <= 'z') || ('A' <= c && c <= 'Z') || c == '_'
}

fn is_ident_char_exec(c: char) -> (r: bool)
    ensures
        r == is_ident_char(c),
{
    is_ident_start_exec(c) || is_digit_exec(c)
}

/// The characters `c[start..end)` as a string.
fn chars_to_string(c: &Vec<char>, start: usize, end: usize) -> (s: String)
    requires
        start <= end <= c.len(),
    ensures
        s@ == c@.subrange(start as int, end as int),
{
    let mut s = String::new();
    let mut k = start;
    while k < end
        invariant
            start <= k <= end <= c.len(),
            s@ == c@.subrange(start as int, k as int),
        decreases end - k,
    {
        push_char(&mut s, c[k]);
        k = k + 1;
        assert(s@ =~= c@.subrange(start as int, k as int));
    }
    s
}

fn segment_is(c: &Vec<char>, start: usize, end: usize, kw: &[char]) -> (r: bool)
    requires
        start <= end <= c.len(),
    ensures
        r == (c@.subrange(start as int, end as int) == kw@),
{
    if end - start != kw.len() {
        return false;
    }
    let mut k: usize = 0;
    while k < kw.len()
        invariant
            end - start == kw.len(),
            start <= end <= c.len(),
            k <= kw.len(),
            forall|m: int| 0 <= m < k ==> c@[start + m] == kw@[m],
        decreases kw.len() - k,
    {
        if c[start + k] != kw[k] {
            assert(c@.subrange(start as int, end as int)[k as int] != kw@[k as int]);
            return false;
        }
        k = k + 1;
    }
    assert(c@.subrange(start as int, end as int) =~= kw@);
    true
}

fn word_token_exec(c: &Vec<char>, start: usize, end: usize) -> (t: LogosToken)
    requires
        start <= end <= c.len(),
    ensures
        t@ == word_token(c@.subrange(start as int, end as int)),
{
    if segment_is(c, start, end, &['i', 'f']) { LogosToken::If }
    else if segment_is(c, start, end, &['e', 'l', 's', 'e']) { LogosToken::Else }
    else if segment_is(c, start, end, &['w', 'h', 'i', 'l', 'e']) { LogosToken::While }
    else if segment_is(c, start, end, &['f', 'o', 'r']) { LogosToken::For }
    else if segment_is(c, start, end, &['l', 'o', 'o', 'p']) { LogosToken::Loop }
    else if segment_is(c, start, end, &['l', 'e', 't']) { LogosToken::Let }
    else if segment_is(c, start, end, &['b', 'r', 'e', 'a', 'k']) { LogosToken::Break }
    else if segment_is(c, start, end, &['c', 'o', 'n', 't', 'i', 'n', 'u', 'e']) { LogosToken::Continue }
    else if segment_is(c, start, end, &['f', 'n']) { LogosToken::Function }
    else if segment_is(c, start, end, &['s', 't', 'r', 'u', 'c', 't']) { LogosToken::Struct }
    else if segment_is(c, start, end, &['e', 'x', 'p', 'o', 'r', 't']) { LogosToken::Export }
    else if segment_is(c, start, end, &['r', 'e', 't', 'u', 'r', 'n']) { LogosToken::Return }
    else if segment_is(c, start, end, &['i', 'm', 'p', 'o', 'r', 't']) { LogosToken::Import }
    else if segment_is(c, start, end, &['n', 'o', 't']) { LogosToken::Not }
    else if segment_is(c, start, end, &['a', 'n', 'd']) { LogosToken::And }
    else if segment_is(c, start, end, &['o', 'r']) { LogosToken::Or }
    else if segment_is(c, start, end, &['t', 'r', 'u', 'e']) { LogosToken::True }
    else if segment_is(c, start, end, &['f', 'a', 'l', 's', 'e']) { LogosToken::False }
    else if segment_is(c, start, end, &['p', 't', 'r']) { LogosToken::Pointer }
    else if segment_is(c, start, end, &['d', 'e', 'r', 'e', 'f']) { LogosToken::Dereference }
    else if segment_is(c, start, end, &['a', 'd', 'd', 'r', 'o', 'f']) { LogosToken::AddressOf }
    else if segment_is(c, start, end, &['n', 'u', 'l', 'l']) { LogosToken::Null }
    else if segment_is(c, start, end, &['n', 'u', 'm', 'b', 'e', 'r']) { LogosToken::Type(ValueType::Number) }
    else if segment_is(c, start, end, &['r', 'e', 'a', 'l']) { LogosToken::Type(ValueType::Real) }
    else if segment_is(c, start, end, &['b', 'o', 'o', 'l']) { LogosToken::Type(ValueType::Bool) }
    else if segment_is(c, start, end, &['s', 't', 'r', 'i', 'n', 'g']) { LogosToken::Type(ValueType::String) }
    else if segment_is(c, start, end, &['v', 'o', 'i', 'd']) { LogosToken::Type(ValueType::Void) }
    else if segment_is(c, start, end, &['c', 'h', 'a', 'r']) { LogosToken::Type(ValueType::Char) }
    else { LogosToken::Identifier(chars_to_string(c, start, end)) }
}

fn single_char_token_exec(ch: char) -> (t: Option<LogosToken>)
    ensures
        match t {
            Some(t) => single_char_token(ch) == Some(t@),
            None => single_char_token(ch) is None,
        },
{
    if ch == '+' { Some(LogosToken::Plus) }
    else if ch == '-' { Some(LogosToken::Minus) }
    else if ch == '*' { Some(LogosToken::Multiply) }
    else if ch == '%' { Some(LogosToken::Modulo) }
    else if ch == '.' { Some(LogosToken::Dot) }
    else if ch == '{' { Some(LogosToken::LeftBrace) }
    else if ch == '}' { Some(LogosToken::RightBrace) }
    else if ch == '[' { Some(LogosToken::LeftBracket) }
    else if ch == ']' { Some(LogosToken::RightBracket) }
    else if ch == '(' { Some(LogosToken::LeftParenthesis) }
    else if ch == ')' { Some(LogosToken::RightParenthesis) }
    else if ch == ',' { Some(LogosToken::Comma) }
    else if ch == ';' { Some(LogosToken::Semicolon) }
    else if ch == '\0' { Some(LogosToken::EndOfFile) }
    else { None }
}

} // verus!

verus! {

fn find_char_exec(c: &Vec<char>, from: usize, ch: char) -> (r: Option<usize>)
    ensures
        match r {
            Some(j) => find_char(c@, from as int, ch) == Some(j as int),
            None => find_char(c@, from as int, ch) is None,
        },
{
    let mut k = from;
    while k < c.len()
        invariant
            from <= k,
            find_char(c@, k as int, ch) == find_char(c@, from as int, ch),
        decreases c.len() - k,
    {
        if c[k] == ch {
            return Some(k);
        }
        k = k + 1;
    }
    None
}

/// The byte offset of character index `to`, counting from `from`.
fn bytes_to(c: &Vec<char>, from: usize, from_byte: usize, to: usize) -> (r: usize)
    requires
        from <= to <= c.len(),
        from_byte == byte_offset(c@, from as int),
        byte_len(c@) <= usize::MAX,
    ensures
        r == byte_offset(c@, to as int),
{
    let mut k = from;
    let mut b = from_byte;
    proof {
        lemma_byte_offset_full(c@);
    }
    while k < to
        invariant
            from <= k <= to <= c.len(),
            b == byte_offset(c@, k as int),
            byte_len(c@) <= usize::MAX,
            byte_offset(c@, c.len() as int) == byte_len(c@),
        decreases to - k,
    {
        proof {
            lemma_byte_offset_step(c@, k as int);
            lemma_byte_offset_grows(c@, k + 1, c.len() as int);
        }
        b = b + width(c[k]);
        k = k + 1;
    }
    b
}

/// Reads a run of digits `c[i..j)` as a number, `None` past `i64::MAX`.
fn digits_value_exec(c: &Vec<char>, i: usize, j: usize) -> (r: Option<i64>)
    requires
        i <= j <= c.len(),
        forall|k: int| i <= k < j ==> is_digit(#[trigger] c@[k]),
    ensures
        match r {
            Some(v) => v == digits_value(c@.subrange(i as int, j as int)),
            None => digits_value(c@.subrange(i as int, j as int)) > i64::MAX,
        },
{
    let mut k = i;
    let mut acc: i64 = 0;
    let mut overflow = false;
    while k < j
        invariant
            i <= k <= j <= c.len(),
            forall|m: int| i <= m < j ==> is_digit(#[trigger] c@[m]),
            !overflow ==> acc == digits_value(c@.subrange(i as int, k as int)),
            !overflow ==> acc >= 0,
            overflow ==> digits_value(c@.subrange(i as int, k as int)) > i64::MAX,
        decreases j - k,
    {
        let ghost prev = c@.subrange(i as int, k as int);
        assert(c@.subrange(i as int, k + 1).drop_last() =~= prev);
        assert(is_digit(c@[k as int]));
        let d = (c[k] as u32 - '0' as u32) as i64;
        proof {
            assert(digits_value(prev) >= 0) by {
                lemma_digits_value_nonneg(prev);
            }
        }
        if !overflow {
            if acc > (i64::MAX - d) / 10 {
                overflow = true;
            } else {
                acc = acc * 10 + d;
            }
        }
        k = k + 1;
    }
    if overflow {
        None
    } else {
        Some(acc)
    }
}

pub proof fn lemma_digits_value_nonneg(s: Seq<char>)
    requires
        forall|k: int| 0 <= k < s.len() ==> is_digit(#[trigger] s[k]),
    ensures
        digits_value(s) >= 0,
    decreases s.len(),
{
    if s.len() > 0 {
        assert(is_digit(s[s.len() - 1]));
        lemma_digits_value_nonneg(s.drop_last());
    }
}

/// Reads the token at character index `i` (see `scan_token`).
fn scan_token_exec(c: &Vec<char>, i: usize, bi: usize) -> (r: (LogosToken, usize, bool))
    requires
        i < c.len(),
        bi == byte_offset(c@, i as int),
        byte_len(c@) <= usize::MAX,
    ensures
        scan_token(c@, i as int) == (Scan::Tok { tok: r.0@, end: r.1 as int, unclosed: r.2 }),
{
    proof {
        lemma_byte_offset_full(c@);
        lemma_byte_offset_step(c@, i as int);
    }
    let ch = c[i];
    let next: Option<char> = if i + 1 < c.len() { Some(c[i + 1]) } else { None };
    if ch == '=' {
        if next == Some('=') { (LogosToken::Equality, i + 2, false) } else { (LogosToken::Equal, i + 1, false) }
    } else if ch == '!' {
        if next == Some('=') { (LogosToken::NegEquality, i + 2, false) } else { (LogosToken::Error, i + 1, false) }
    } else if ch == '<' {
        if next == Some('=') { (LogosToken::LessEqual, i + 2, false) } else { (LogosToken::Less, i + 1, false) }
    } else if ch == '>' {
        if next == Some('=') { (LogosToken::MoreEqual, i + 2, false) } else { (LogosToken::More, i + 1, false) }
    } else if ch == ':' {
        if next == Some(':') { (LogosToken::DoubleColon, i + 2, false) } else { (LogosToken::Colon, i + 1, false) }
    } else if ch == '/' {
        (LogosToken::Divide, i + 1, false)
    } else if ch == '"' {
        proof {
            lemma_find_char(c@, i + 1, '"');
        }
        match find_char_exec(c, i + 1, '"') {
            Some(j) => (LogosToken::Quote(chars_to_string(c, i + 1, j)), j + 1, false),
            None => (LogosToken::Error, i + 1, true),
        }
    } else if ch == '\'' {
        if c.len() - i > 2 && c[i + 2] == '\'' {
            (LogosToken::CharLiteral(c[i + 1]), i + 3, false)
        } else {
            (LogosToken::Error, i + 1, false)
        }
    } else if is_digit_exec(ch) {
        proof {
            lemma_digits_end(c@, i as int);
        }
        let mut j = i;
        while j < c.len() && is_digit_exec(c[j])
            invariant
                i <= j <= c.len(),
                digits_end(c@, j as int) == digits_end(c@, i as int),
                forall|m: int| i <= m < j ==> is_digit(#[trigger] c@[m]),
            decreases c.len() - j,
        {
            j = j + 1;
        }
        if j < c.len() && c[j] == '.' {
            proof {
                lemma_digits_end(c@, j + 1);
            }
            let mut k = j + 1;
            while k < c.len() && is_digit_exec(c[k])
                invariant
                    j + 1 <= k <= c.len(),
                    digits_end(c@, k as int) == digits_end(c@, j + 1),
                decreases c.len() - k,
            {
                k = k + 1;
            }
            (LogosToken::Real(chars_to_string(c, i, k)), k, false)
        } else {
            match digits_value_exec(c, i, j) {
                Some(v) => (LogosToken::Number(v), j, false),
                None => (LogosToken::Error, j, false),
            }
        }
    } else if is_ident_start_exec(ch) {
        let mut j = i;
        while j < c.len() && is_ident_char_exec(c[j])
            invariant
                i <= j <= c.len(),
                word_end(c@, j as int) == word_end(c@, i as int),
            decreases c.len() - j,
        {
            j = j + 1;
        }
        (word_token_exec(c, i, j), j, false)
    } else {
        match single_char_token_exec(ch) {
            Some(t) => (t, i + 1, false),
            None => (LogosToken::Error, i + 1, false),
        }
    }
}

} // verus!

verus! {

impl Lexer {
    /// The characters of the source text.
    pub closed spec fn source(&self) -> Seq<char> {
        self.chars@
    }

    /// Character index where the lexer resumes.
    pub closed spec fn position(&self) -> int {
        self.pos as int
    }

    /// Character index where the current token starts.
    pub closed spec fn token_start(&self) -> int {
        self.start as int
    }

    /// Whether the current token is a string literal left unclosed.
    pub closed spec fn last_unclosed(&self) -> bool {
        self.unclosed
    }

    pub closed spec fn wf(&self) -> bool {
        &&& self.start <= self.pos <= self.chars.len()
        &&& self.byte == byte_offset(self.chars@, self.pos as int)
        &&& self.start_byte == byte_offset(self.chars@, self.start as int)
        &&& byte_len(self.chars@) <= usize::MAX
        &&& self.extras.last_newline_position <= self.start_byte
        &&& self.extras.line_count <= self.start
    }

    /// Newlines counted so far.
    pub closed spec fn line_count(&self) -> nat {
        self.extras.line_count as nat
    }

    /// Byte offset just after the last newline counted.
    pub closed spec fn last_newline(&self) -> nat {
        self.extras.last_newline_position as nat
    }

    /// What the next call of `next` does.
    pub closed spec fn step(&self) -> Step {
        lex_step(
            self.source(),
            self.position(),
            self.extras.line_count as nat,
            self.extras.last_newline_position as nat,
        )
    }

    pub fn new(source: &str) -> (r: Self)
        requires
            byte_len(source@) <= usize::MAX,
        ensures
            r.wf(),
            r.source() == source@,
            r.position() == 0,
            r.token_start() == 0,
            r.line_count() == 0,
            r.last_newline() == 0,
    {
        let chars = source_chars(source);
        proof {
            assert(chars@.take(0) =~= Seq::<char>::empty());
        }
        Lexer { chars, start: 0, pos: 0, start_byte: 0, byte: 0, extras: TokenInfo::new(), unclosed: false }
    }

    /// Reads the next token: `None` once the source is exhausted.
    pub fn next(&mut self) -> (r: Option<LogosToken>)
        requires
            old(self).wf(),
        ensures
            final(self).wf(),
            final(self).source() == old(self).source(),
            match old(self).step() {
                Step::End { line_count, last_newline } => {
                    &&& r is None
                    &&& final(self).line_count() == line_count
                    &&& final(self).last_newline() == last_newline
                    &&& final(self).position() == final(self).source().len()
                },
                Step::Tok { tok, start, end, line_count, last_newline, unclosed } => {
                    &&& r matches Some(t) && t@ == tok
                    &&& final(self).token_start() == start
                    &&& final(self).position() == end
                    &&& final(self).line_count() == line_count
                    &&& final(self).last_newline() == last_newline
                    &&& final(self).last_unclosed() == unclosed
                },
            },
    {
        let ghost c = self.chars@;
        let ghost goal = old(self).step();
        proof {
            lemma_byte_offset_full(c);
            lemma_byte_offset_grows(c, self.start as int, self.pos as int);
        }
        loop
            invariant
                c == self.chars@,
                c == old(self).chars@,
                goal == old(self).step(),
                self.pos <= self.chars.len(),
                self.byte == byte_offset(c, self.pos as int),
                byte_len(c) <= usize::MAX,
                byte_offset(c, c.len() as int) == byte_len(c),
                self.extras.last_newline_position <= self.byte,
                self.extras.line_count <= self.pos,
                lex_step(c, self.pos as int, self.extras.line_count as nat, self.extras.last_newline_position as nat) == goal,
            decreases self.chars.len() - self.pos,
        {
            if self.pos >= self.chars.len() {
                self.start = self.pos;
                self.start_byte = self.byte;
                return None;
            }
            let ch = self.chars[self.pos];
            proof {
                lemma_byte_offset_step(c, self.pos as int);
                lemma_byte_offset_grows(c, self.pos + 1, c.len() as int);
            }
            if ch == ' ' || ch == '\t' || ch == '\u{b}' || ch == '\r' {
                self.pos = self.pos + 1;
                self.byte = self.byte + 1;
            } else if ch == '\n' {
                self.pos = self.pos + 1;
                self.byte = self.byte + 1;
                self.extras.increase_line_number(self.byte);
            } else if ch == '/' && self.chars.len() - self.pos > 1 && self.chars[self.pos + 1] == '/' {
                proof {
                    lemma_byte_offset_step(c, self.pos + 1);
                    lemma_find_char(c, self.pos + 2, '\n');
                }
                let from = self.pos + 2;
                let to = match find_char_exec(&self.chars, from, '\n') {
                    Some(j) => j + 1,
                    None => self.chars.len(),
                };
                proof {
                    lemma_byte_offset_grows(c, from as int, c.len() as int);
                }
                let to_byte = bytes_to(&self.chars, from, self.byte + 2, to);
                proof {
                    lemma_byte_offset_grows(c, from as int, to as int);
                }
                self.pos = to;
                self.byte = to_byte;
            } else {
                proof {
                    lemma_scan_range(c, self.pos as int);
                }
                let (tok, end, unclosed) = scan_token_exec(&self.chars, self.pos, self.byte);
                proof {
                    lemma_byte_offset_grows(c, self.pos as int, end as int);
                    lemma_byte_offset_grows(c, end as int, c.len() as int);
                }
                let mut end_byte = self.byte;
                let mut k = self.pos;
                while k < end
                    invariant
                        c == self.chars@,
                        self.pos <= k <= end <= c.len(),
                        end_byte == byte_offset(c, k as int),
                        byte_offset(c, end as int) <= usize::MAX,
                    decreases end - k,
                {
                    proof {
                        lemma_byte_offset_step(c, k as int);
                        lemma_byte_offset_grows(c, k + 1, end as int);
                    }
                    end_byte = end_byte + width(self.chars[k]);
                    k = k + 1;
                }
                self.start = self.pos;
                self.start_byte = self.byte;
                self.pos = end;
                self.byte = end_byte;
                self.unclosed = unclosed;
                return Some(tok);
            }
        }
    }

    /// The text of the current token.
    pub fn slice(&self) -> (s: String)
        requires
            self.wf(),
        ensures
            s@ == self.source().subrange(self.token_start(), self.position()),
    {
        chars_to_string(&self.chars, self.start, self.pos)
    }

    /// The byte range of the current token.
    pub fn span(&self) -> (r: (usize, usize))
        requires
            self.wf(),
        ensures
            r.0 == byte_offset(self.source(), self.token_start()),
            r.1 == byte_offset(self.source(), self.position()),
    {
        (self.start_byte, self.byte)
    }
}

impl LogosToken {
    /// A lexer over `source`.
    pub fn lexer(source: &str) -> (r: Lexer)
        requires
            byte_len(source@) <= usize::MAX,
        ensures
            r.wf(),
            r.source() == source@,
            r.position() == 0,
            r.line_count() == 0,
            r.last_newline() == 0,
    {
        Lexer::new(source)
    }
}

} // verus!

verus! {

/// Position of a token's variant in the declaration of `LogosToken`.
pub open spec fn token_kind(t: LogosToken) -> nat {
    match t {
            LogosToken::If => 0,
            LogosToken::Else => 1,
            LogosToken::While => 2,
            LogosToken::For => 3,
            LogosToken::Loop => 4,
            LogosToken::Let => 5,
            LogosToken::Break => 6,
            LogosToken::Continue => 7,
            LogosToken::Function => 8,
            LogosToken::Struct => 9,
            LogosToken::Export => 10,
            LogosToken::Return => 11,
            LogosToken::Import => 12,
            LogosToken::Equal => 13,
            LogosToken::Plus => 14,
            LogosToken::Minus => 15,
            LogosToken::Multiply => 16,
            LogosToken::Divide => 17,
            LogosToken::Modulo => 18,
            LogosToken::Dot => 19,
            LogosToken::Not => 20,
            LogosToken::And => 21,
            LogosToken::Or => 22,
            LogosToken::Equality => 23,
            LogosToken::NegEquality => 24,
            LogosToken::Less => 25,
            LogosToken::More => 26,
            LogosToken::LessEqual => 27,
            LogosToken::MoreEqual => 28,
            LogosToken::LeftBrace => 29,
            LogosToken::RightBrace => 30,
            LogosToken::LeftBracket => 31,
            LogosToken::RightBracket => 32,
            LogosToken::LeftParenthesis => 33,
            LogosToken::RightParenthesis => 34,
            LogosToken::Comma => 35,
            LogosToken::Semicolon => 36,
            LogosToken::Colon => 37,
            LogosToken::DoubleColon => 38,
            LogosToken::True => 39,
            LogosToken::False => 40,
            LogosToken::Quote(_) => 41,
            LogosToken::CharLiteral(_) => 42,
            LogosToken::Pointer => 43,
            LogosToken::Dereference => 44,
            LogosToken::AddressOf => 45,
            LogosToken::Null => 46,
            LogosToken::Type(_) => 47,
            LogosToken::Number(_) => 48,
            LogosToken::Real(_) => 49,
            LogosToken::Identifier(_) => 50,
            LogosToken::EndOfFile => 51,
            LogosToken::Comment => 52,
            LogosToken::NewLine => 53,
            LogosToken::Error => 54,
    }
}

/// Two tokens compare equal when they are of the same variant, whatever their
/// payloads; `Null`, `Comment` and `NewLine` never compare equal.
pub open spec fn token_eq(a: LogosToken, b: LogosToken) -> bool {
    &&& token_kind(a) == token_kind(b)
    &&& !(a is Null || a is Comment || a is NewLine)
}

/// Comparing tokens is symmetric and transitive; a token equals itself unless
/// it is `Null`, `Comment` or `NewLine`.
pub proof fn law_token_eq(a: LogosToken, b: LogosToken, c: LogosToken)
    ensures
        token_eq(a, a) == !(a is Null || a is Comment || a is NewLine),
        token_eq(a, b) == token_eq(b, a),
        token_eq(a, b) && token_eq(b, c) ==> token_eq(a, c),
{
    if token_kind(a) == token_kind(b) {
        match a {
            LogosToken::Null => assert(b is Null) by { match b { LogosToken::Null => {}, _ => {} } },
            LogosToken::Comment => assert(b is Comment) by { match b { LogosToken::Comment => {}, _ => {} } },
            LogosToken::NewLine => assert(b is NewLine) by { match b { LogosToken::NewLine => {}, _ => {} } },
            _ => assert(!(b is Null || b is Comment || b is NewLine)) by {
                match b { _ => {} }
            },
        }
    }
}

/// Whether a token never compares equal (`Null`, `Comment`, `NewLine`).
fn never_equal(t: &LogosToken) -> (r: bool)
    ensures
        r == (*t is Null || *t is Comment || *t is NewLine),
{
    match t {
        LogosToken::Null | LogosToken::Comment | LogosToken::NewLine => true,
        _ => false,
    }
}

fn token_kind_exec(t: &LogosToken) -> (k: u8)
    ensures
        k == token_kind(*t),
{
    match t {
        LogosToken::If => 0,
        LogosToken::Else => 1,
        LogosToken::While => 2,
        LogosToken::For => 3,
        LogosToken::Loop => 4,
        LogosToken::Let => 5,
        LogosToken::Break => 6,
        LogosToken::Continue => 7,
        LogosToken::Function => 8,
        LogosToken::Struct => 9,
        LogosToken::Export => 10,
        LogosToken::Return => 11,
        LogosToken::Import => 12,
        LogosToken::Equal => 13,
        LogosToken::Plus => 14,
        LogosToken::Minus => 15,
        LogosToken::Multiply => 16,
        LogosToken::Divide => 17,
        LogosToken::Modulo => 18,
        LogosToken::Dot => 19,
        LogosToken::Not => 20,
        LogosToken::And => 21,
        LogosToken::Or => 22,
        LogosToken::Equality => 23,
        LogosToken::NegEquality => 24,
        LogosToken::Less => 25,
        LogosToken::More => 26,
        LogosToken::LessEqual => 27,
        LogosToken::MoreEqual => 28,
        LogosToken::LeftBrace => 29,
        LogosToken::RightBrace => 30,
        LogosToken::LeftBracket => 31,
        LogosToken::RightBracket => 32,
        LogosToken::LeftParenthesis => 33,
        LogosToken::RightParenthesis => 34,
        LogosToken::Comma => 35,
        LogosToken::Semicolon => 36,
        LogosToken::Colon => 37,
        LogosToken::DoubleColon => 38,
        LogosToken::True => 39,
        LogosToken::False => 40,
        LogosToken::Quote(_) => 41,
        LogosToken::CharLiteral(_) => 42,
        LogosToken::Pointer => 43,
        LogosToken::Dereference => 44,
        LogosToken::AddressOf => 45,
        LogosToken::Null => 46,
        LogosToken::Type(_) => 47,
        LogosToken::Number(_) => 48,
        LogosToken::Real(_) => 49,
        LogosToken::Identifier(_) => 50,
        LogosToken::EndOfFile => 51,
        LogosToken::Comment => 52,
        LogosToken::NewLine => 53,
        LogosToken::Error => 54,
    }
}

impl PartialEq for LogosToken {
    fn eq(&self, other: &Self) -> (r: bool) {
        token_kind_exec(self) == token_kind_exec(other) && !never_equal(self)
    }
}

impl vstd::std_specs::cmp::PartialEqSpecImpl for LogosToken {
    open spec fn obeys_eq_spec() -> bool {
        true
    }

    open spec fn eq_spec(&self, other: &LogosToken) -> bool {
        token_eq(*self, *other)
    }
}

impl Token {
    /// A token seen as its kind, line and column.
    pub open spec fn spec_view(self) -> (SpecToken, nat, int) {
        (self.logos_tk@, self.line_number as nat, self.column_number as int)
    }

    /// Lexes a whole source text.
    pub fn lex_string(string: &str) -> (r: Vec<Token>)
        requires
            byte_len(string@) <= usize::MAX,
        ensures
            r@.map_values(|t: Token| t.spec_view()) == lex_source(string@).unwrap().0,
    {
        let (tokens, _errors) = Self::lex_string_with_errors(string);
        tokens
    }

    /// Lexes a whole source text; also returns one message per string
    /// literal left unclosed.
    pub fn lex_string_with_errors(string: &str) -> (r: (Vec<Token>, Vec<String>))
        requires
            byte_len(string@) <= usize::MAX,
        ensures
            r.0@.map_values(|t: Token| t.spec_view()) == lex_source(string@).unwrap().0,
            r.1@.len() == lex_source(string@).unwrap().1,
            forall|k: int| 0 <= k < r.1@.len() ==> #[trigger] r.1@[k]@ == "Error: Unclosed string literal."@,
    {
        let mut lexer = Lexer::new(string);
        let mut result: Vec<Token> = Vec::new();
        let mut errors: Vec<String> = Vec::new();
        let ghost c = string@;
        proof {
            law_every_source_lexes(c);
        }
        let ghost total = lex_source(c).unwrap();
        loop
            invariant
                lexer.wf(),
                lexer.source() == c,
                c == string@,
                0 <= lexer.position() <= c.len(),
                lex_all(c, lexer.position(), lexer.line_count(), lexer.last_newline()) is Some,
                total == lex_source(c).unwrap(),
                total.0 == result@.map_values(|t: Token| t.spec_view())
                    + lex_all(c, lexer.position(), lexer.line_count(), lexer.last_newline()).unwrap().0,
                total.1 == errors@.len()
                    + lex_all(c, lexer.position(), lexer.line_count(), lexer.last_newline()).unwrap().1,
                forall|k: int| 0 <= k < errors@.len() ==> #[trigger] errors@[k]@ == "Error: Unclosed string literal."@,
            decreases c.len() - lexer.position(),
        {
            let ghost before = lexer;
            proof {
                lemma_lex_step_range(c, lexer.position(), lexer.line_count(), lexer.last_newline());
                lemma_lex_all_some(c, lexer.position(), lexer.line_count(), lexer.last_newline());
            }
            match lexer.next() {
                Some(tk) => {
                    let line_number = lexer.extras.line_count + 1;
                    let (start_byte, _) = lexer.span();
                    let column_number = lexer.extras.last_newline_index(start_byte);
                    let unclosed = lexer.unclosed;
                    let ghost old_view = result@.map_values(|t: Token| t.spec_view());
                    let token = Token { logos_tk: tk, line_number, column_number };
                    result.push(token);
                    assert(result@.map_values(|t: Token| t.spec_view()) =~= old_view.push(token.spec_view()));
                    if unclosed {
                        errors.push(String::from_str("Error: Unclosed string literal."));
                    }
                },
                None => {
                    assert(before.step() is End);
                    assert(lex_all(c, before.position(), before.line_count(), before.last_newline())
                        == Some((Seq::<(SpecToken, nat, int)>::empty(), 0nat)));
                    assert(result@.map_values(|t: Token| t.spec_view()) + Seq::<(SpecToken, nat, int)>::empty()
                        =~= result@.map_values(|t: Token| t.spec_view()));
                    return (result, errors);
                },
            }
        }
    }
}

} // verus!
