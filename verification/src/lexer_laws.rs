use vstd::prelude::*;
use crate::lexer::{Scan, SpecToken, Step, byte_offset, digits_value, lex_step, lemma_digits_end, lemma_find_char, scan_token, word_token};
use crate::value_type::ValueType;

verus! {

/// A token read up to character index `end`, not an unclosed string.
pub open spec fn closed_token(tok: SpecToken, end: int) -> Scan {
    Scan::Tok { tok, end, unclosed: false }
}

/// A punctuation character that no longer token starts with is a token of its
/// own, one character long.
pub proof fn law_punctuation_tokens(c: Seq<char>, i: int)
    requires
        0 <= i < c.len(),
    ensures
        c[i] == '+' ==> scan_token(c, i) == closed_token(SpecToken::Plus, i + 1),
        c[i] == '-' ==> scan_token(c, i) == closed_token(SpecToken::Minus, i + 1),
        c[i] == '*' ==> scan_token(c, i) == closed_token(SpecToken::Multiply, i + 1),
        c[i] == '/' ==> scan_token(c, i) == closed_token(SpecToken::Divide, i + 1),
        c[i] == '%' ==> scan_token(c, i) == closed_token(SpecToken::Modulo, i + 1),
        c[i] == '.' ==> scan_token(c, i) == closed_token(SpecToken::Dot, i + 1),
        c[i] == '{' ==> scan_token(c, i) == closed_token(SpecToken::LeftBrace, i + 1),
        c[i] == '}' ==> scan_token(c, i) == closed_token(SpecToken::RightBrace, i + 1),
        c[i] == '[' ==> scan_token(c, i) == closed_token(SpecToken::LeftBracket, i + 1),
        c[i] == ']' ==> scan_token(c, i) == closed_token(SpecToken::RightBracket, i + 1),
        c[i] == '(' ==> scan_token(c, i) == closed_token(SpecToken::LeftParenthesis, i + 1),
        c[i] == ')' ==> scan_token(c, i) == closed_token(SpecToken::RightParenthesis, i + 1),
        c[i] == ',' ==> scan_token(c, i) == closed_token(SpecToken::Comma, i + 1),
        c[i] == ';' ==> scan_token(c, i) == closed_token(SpecToken::Semicolon, i + 1),
{
}

/// `=`, `!`, `<`, `>` followed by `=`, and `:` followed by `:`, make one token
/// of two characters; otherwise the first character is a token alone (`!`
/// alone is no token of the language).
pub proof fn law_operators_take_longest_match(c: Seq<char>, i: int)
    requires
        0 <= i < c.len(),
    ensures
        ({
            let two = i + 1 < c.len() && c[i + 1] == '=';
            &&& c[i] == '=' ==> scan_token(c, i) == if two {
                closed_token(SpecToken::Equality, i + 2)
            } else {
                closed_token(SpecToken::Equal, i + 1)
            }
            &&& c[i] == '!' ==> scan_token(c, i) == if two {
                closed_token(SpecToken::NegEquality, i + 2)
            } else {
                closed_token(SpecToken::Error, i + 1)
            }
            &&& c[i] == '<' ==> scan_token(c, i) == if two {
                closed_token(SpecToken::LessEqual, i + 2)
            } else {
                closed_token(SpecToken::Less, i + 1)
            }
            &&& c[i] == '>' ==> scan_token(c, i) == if two {
                closed_token(SpecToken::MoreEqual, i + 2)
            } else {
                closed_token(SpecToken::More, i + 1)
            }
        }),
        c[i] == ':' ==> scan_token(c, i) == if i + 1 < c.len() && c[i + 1] == ':' {
            closed_token(SpecToken::DoubleColon, i + 2)
        } else {
            closed_token(SpecToken::Colon, i + 1)
        },
{
}

/// A number runs over every digit that follows its first one. Followed by a
/// `.`, it is a real that also takes the digits after the `.`, and its token
/// carries the whole text read; otherwise the token ends at the first
/// character that is not a digit.
pub proof fn law_number_is_longest_digit_run(c: Seq<char>, i: int)
    requires
        0 <= i < c.len(),
        '0' <= c[i] <= '9',
    ensures
        scan_token(c, i) matches Scan::Tok { tok, end, unclosed } && {
            &&& i < end <= c.len()
            &&& !unclosed
            &&& tok is Real ==> tok == SpecToken::Real(c.subrange(i, end))
            &&& tok is Real <==> exists|j: int|
                i < j < end && c[j] == '.' && (forall|k: int| i <= k < j ==> '0' <= #[trigger] c[k] <= '9')
            &&& !(tok is Real) ==> (forall|k: int| i <= k < end ==> '0' <= #[trigger] c[k] <= '9') && (end
                < c.len() ==> !('0' <= c[end] <= '9') && c[end] != '.')
            &&& tok is Real ==> (end < c.len() ==> !('0' <= c[end] <= '9'))
            &&& tok is Number || tok is Real || tok is Error
        },
{
    lemma_digits_end(c, i);
    let j = crate::lexer::digits_end(c, i);
    if j < c.len() && c[j] == '.' {
        lemma_digits_end(c, j + 1);
        let k = crate::lexer::digits_end(c, j + 1);
        assert(c[j] == '.' && (forall|m: int| i <= m < j ==> '0' <= #[trigger] c[m] <= '9'));
    } else {
        assert forall|j2: int|
            i < j2 < j implies !(c[j2] == '.' && (forall|m: int| i <= m < j2 ==> '0' <= #[trigger] c[m] <= '9')) by {
            assert('0' <= c[j2] <= '9');
        }
    }
}

/// The reserved words of the language and the tokens they make; the names of
/// the basic types are type tokens.
pub proof fn law_reserved_words()
    ensures
        word_token(seq!['i', 'f']) == SpecToken::If,
        word_token(seq!['e', 'l', 's', 'e']) == SpecToken::Else,
        word_token(seq!['w', 'h', 'i', 'l', 'e']) == SpecToken::While,
        word_token(seq!['f', 'o', 'r']) == SpecToken::For,
        word_token(seq!['l', 'o', 'o', 'p']) == SpecToken::Loop,
        word_token(seq!['l', 'e', 't']) == SpecToken::Let,
        word_token(seq!['b', 'r', 'e', 'a', 'k']) == SpecToken::Break,
        word_token(seq!['c', 'o', 'n', 't', 'i', 'n', 'u', 'e']) == SpecToken::Continue,
        word_token(seq!['f', 'n']) == SpecToken::Function,
        word_token(seq!['s', 't', 'r', 'u', 'c', 't']) == SpecToken::Struct,
        word_token(seq!['e', 'x', 'p', 'o', 'r', 't']) == SpecToken::Export,
        word_token(seq!['r', 'e', 't', 'u', 'r', 'n']) == SpecToken::Return,
        word_token(seq!['i', 'm', 'p', 'o', 'r', 't']) == SpecToken::Import,
        word_token(seq!['n', 'o', 't']) == SpecToken::Not,
        word_token(seq!['a', 'n', 'd']) == SpecToken::And,
        word_token(seq!['o', 'r']) == SpecToken::Or,
        word_token(seq!['t', 'r', 'u', 'e']) == SpecToken::True,
        word_token(seq!['f', 'a', 'l', 's', 'e']) == SpecToken::False,
        word_token(seq!['p', 't', 'r']) == SpecToken::Pointer,
        word_token(seq!['d', 'e', 'r', 'e', 'f']) == SpecToken::Dereference,
        word_token(seq!['a', 'd', 'd', 'r', 'o', 'f']) == SpecToken::AddressOf,
        word_token(seq!['n', 'u', 'l', 'l']) == SpecToken::Null,
        word_token(seq!['n', 'u', 'm', 'b', 'e', 'r']) == SpecToken::Type(ValueType::Number),
        word_token(seq!['r', 'e', 'a', 'l']) == SpecToken::Type(ValueType::Real),
        word_token(seq!['b', 'o', 'o', 'l']) == SpecToken::Type(ValueType::Bool),
        word_token(seq!['s', 't', 'r', 'i', 'n', 'g']) == SpecToken::Type(ValueType::String),
        word_token(seq!['v', 'o', 'i', 'd']) == SpecToken::Type(ValueType::Void),
        word_token(seq!['c', 'h', 'a', 'r']) == SpecToken::Type(ValueType::Char),
{
}

/// A word is either one of the reserved words or an identifier that carries
/// the word itself.
pub proof fn law_other_words_are_identifiers(w: Seq<char>)
    ensures
        word_token(w) is Identifier ==> word_token(w) == SpecToken::Identifier(w),
        w.len() > 8 ==> word_token(w) == SpecToken::Identifier(w),
{
}

/// A string literal runs from its opening quote to the next quote, and its
/// token carries the characters between them; with no closing quote, the
/// opening quote alone is an error, marked as an unclosed string.
pub proof fn law_string_literal_to_next_quote(c: Seq<char>, i: int)
    requires
        0 <= i < c.len(),
        c[i] == '"',
    ensures
        scan_token(c, i) matches Scan::Tok { tok, end, unclosed } && {
            ||| {
                &&& !unclosed
                &&& i + 1 < end <= c.len()
                &&& c[end - 1] == '"'
                &&& forall|k: int| i < k < end - 1 ==> #[trigger] c[k] != '"'
                &&& tok == SpecToken::Quote(c.subrange(i + 1, end - 1))
            }
            ||| {
                &&& unclosed
                &&& end == i + 1
                &&& tok is Error
                &&& forall|k: int| i < k < c.len() ==> #[trigger] c[k] != '"'
            }
        },
{
    lemma_find_char(c, i + 1, '"');
}

/// A run of digits is read in base ten, its first digit the most significant:
/// one more digit at the end multiplies the value by ten and adds the digit.
pub proof fn law_decimal_value(s: Seq<char>, d: char)
    requires
        '0' <= d <= '9',
    ensures
        digits_value(Seq::empty()) == 0,
        digits_value(s.push(d)) == 10 * digits_value(s) + (d as int - '0' as int),
        digits_value(seq![d]) == d as int - '0' as int,
{
    assert(s.push(d).drop_last() =~= s);
    assert(seq![d].drop_last() =~= Seq::<char>::empty());
}

/// Spaces, tabs, vertical tabs and carriage returns between tokens are
/// skipped and count no line.
pub proof fn law_blanks_are_skipped(c: Seq<char>, i: int, j: int, lc: nat, ln: nat)
    requires
        0 <= i <= j <= c.len(),
        forall|k: int| i <= k < j ==> (#[trigger] c[k] == ' ' || c[k] == '\t' || c[k] == '\u{b}' || c[k] == '\r'),
    ensures
        lex_step(c, i, lc, ln) == lex_step(c, j, lc, ln),
    decreases j - i,
{
    if i < j {
        law_blanks_are_skipped(c, i + 1, j, lc, ln);
    }
}

/// Each newline between tokens counts one line, and the line that follows it
/// starts at the byte after it.
pub proof fn law_newlines_count_lines(c: Seq<char>, i: int, j: int, lc: nat, ln: nat)
    requires
        0 <= i < j <= c.len(),
        forall|k: int| i <= k < j ==> #[trigger] c[k] == '\n',
    ensures
        lex_step(c, i, lc, ln) == lex_step(c, j, (lc + (j - i)) as nat, byte_offset(c, j)),
    decreases j - i,
{
    if i + 1 < j {
        law_newlines_count_lines(c, i + 1, j, lc + 1, byte_offset(c, i + 1));
    }
}

/// Lexing stops at the end of the text, reporting the lines counted.
pub proof fn law_end_of_text(c: Seq<char>, lc: nat, ln: nat)
    ensures
        lex_step(c, c.len() as int, lc, ln) == (Step::End { line_count: lc, last_newline: ln }),
{
}

/// A `//` comment runs to the end of its line and is skipped together with
/// the newline that ends it, which counts no line; a comment that reaches the
/// end of the text ends the lexing.
pub proof fn law_comments_are_skipped(c: Seq<char>, i: int, lc: nat, ln: nat)
    requires
        0 <= i,
        i + 1 < c.len(),
        c[i] == '/',
        c[i + 1] == '/',
    ensures
        forall|j: int|
            i + 2 <= j < c.len() && #[trigger] c[j] == '\n' && (forall|k: int| i + 2 <= k < j ==> c[k] != '\n')
                ==> lex_step(c, i, lc, ln) == lex_step(c, j + 1, lc, ln),
        (forall|k: int| i + 2 <= k < c.len() ==> c[k] != '\n') ==> lex_step(c, i, lc, ln) == (Step::End {
            line_count: lc,
            last_newline: ln,
        }),
{
    lemma_find_char(c, i + 2, '\n');
}

} // verus!
