//! Works out what kind of completion fits at the cursor of a search query.
//!
//! The query language's lexer hands over the tokens of the query up to the
//! cursor; this module decides the completion context from them.
use vstd::prelude::*;
use vstd::utf8::{decode_utf8, encode_utf8, is_char_boundary, valid_utf8};
use vstd::string::*;
use crate::text::{byte_len, chars_of, lemma_encode_utf8_concat, trim_bounds, trimmed};

verus! {

broadcast use vstd::string::group_string_axioms, vstd::utf8::encode_utf8_decode_utf8;

/// A token of the query language.
#[derive(Debug, Clone)]
pub enum Token {
    /// `AND` or `&&`
    And,
    /// `OR` or `||`
    Or,
    /// `NOT` or `!`
    Not,
    Colon,
    LParen,
    RParen,
    /// A bare word
    Text(String),
    /// A quoted string
    QuotedText(String),
}

/// The byte range of a token in the query, start inclusive, end exclusive.
#[derive(Debug, Clone, Copy, PartialEq, Eq, Structural)]
pub struct Span {
    pub start: usize,
    pub end: usize,
}

/// The completion context at the cursor.
#[derive(Debug, Clone)]
pub enum CompletionContext {
    /// Empty query or at start
    Empty,
    /// Just typed a field name, expecting colon or more text
    /// e.g., "roo|" could become "root:"
    PartialFieldOrTerm { text: String, start_pos: usize },
    /// After "field:", expecting value
    /// e.g., "root:|" or "root:/etc|"
    FieldValue { field: String, value: String, value_start: usize },
    /// After a complete term, could type operator or new term
    /// e.g., "root:/etc |"
    AfterTerm,
    /// After AND/OR/NOT, expecting term
    AfterOperator,
    /// Inside parentheses
    InGroup { depth: usize },
    /// Inside quoted string - no completion
    InQuotedString,
}

pub struct QueryAnalyzer;

/// The text a word or quoted string carries; empty for the other tokens.
pub open spec fn text_of(t: Token) -> Seq<char> {
    match t {
        Token::Text(s) => s@,
        Token::QuotedText(s) => s@,
        _ => Seq::empty(),
    }
}

/// The number of `(` tokens.
pub open spec fn count_lparen(tokens: Seq<(Token, Span)>) -> nat
    decreases tokens.len(),
{
    if tokens.len() == 0 {
        0
    } else {
        count_lparen(tokens.drop_last()) + if tokens.last().0 is LParen { 1nat } else { 0nat }
    }
}

/// The number of `)` tokens.
pub open spec fn count_rparen(tokens: Seq<(Token, Span)>) -> nat
    decreases tokens.len(),
{
    if tokens.len() == 0 {
        0
    } else {
        count_rparen(tokens.drop_last()) + if tokens.last().0 is RParen { 1nat } else { 0nat }
    }
}

/// Whether `s` ends inside a double-quoted string: a `"` not preceded by a
/// backslash opens or closes a string.
pub open spec fn in_quote_after(s: Seq<char>) -> bool
    decreases s.len(),
{
    if s.len() == 0 {
        false
    } else {
        let prev = if s.len() >= 2 { s[s.len() - 2] } else { ' ' };
        let c = s.last();
        if c == '"' && prev != '\\' {
            !in_quote_after(s.drop_last())
        } else {
            in_quote_after(s.drop_last())
        }
    }
}

/// What the tokens allow: the tokens a query whose last `(` is the last token
/// opens no fewer groups than it closes.
pub open spec fn tokens_well_nested(tokens: Seq<(Token, Span)>) -> bool {
    tokens.len() > 0 && tokens.last().0 is LParen ==> count_rparen(tokens) <= count_lparen(tokens)
}

/// The context that `tokens`, the tokens of the query text `q`, give.
pub open spec fn token_context(q: Seq<char>, tokens: Seq<(Token, Span)>, r: CompletionContext) -> bool {
    let n = tokens.len();
    if n == 0 {
        r matches CompletionContext::PartialFieldOrTerm { text, start_pos }
            && text@ == trimmed(q) && start_pos == byte_len(q) - byte_len(trimmed(q))
    } else {
        let last = tokens[n - 1].0;
        let span = tokens[n - 1].1;
        let ends_with_space = q.len() > 0 && q.last() == ' ';
        match last {
            Token::Colon => if n >= 2 && tokens[n - 2].0 is Text {
                r matches CompletionContext::FieldValue { field, value, value_start }
                    && field@ == text_of(tokens[n - 2].0) && value@.len() == 0
                    && value_start == span.end
            } else {
                r is AfterTerm
            },
            Token::Text(text) => if n >= 3 && tokens[n - 2].0 is Colon && tokens[n - 3].0 is Text {
                r matches CompletionContext::FieldValue { field, value, value_start }
                    && field@ == text_of(tokens[n - 3].0) && value@ == text@
                    && value_start == span.start
            } else if ends_with_space {
                r is AfterTerm
            } else {
                r matches CompletionContext::PartialFieldOrTerm { text: t, start_pos }
                    && t@ == text@ && start_pos == span.start
            },
            Token::QuotedText(_) => if ends_with_space {
                r is AfterTerm
            } else {
                r is InQuotedString
            },
            Token::And | Token::Or | Token::Not => r is AfterOperator,
            Token::LParen => r matches CompletionContext::InGroup { depth }
                && depth == count_lparen(tokens) - count_rparen(tokens),
            Token::RParen => r is AfterTerm,
        }
    }
}

/// The bytes of `query` before the cursor; a cursor past the end stands at the end.
pub open spec fn bytes_to_cursor(query: Seq<u8>, cursor_pos: usize) -> Seq<u8> {
    query.subrange(0, if cursor_pos < query.len() { cursor_pos as int } else { query.len() as int })
}

/// Whether the cursor falls on a character boundary of the query (past the end counts as the end).
pub open spec fn cursor_on_boundary(query: Seq<u8>, cursor_pos: usize) -> bool {
    is_char_boundary(query, if cursor_pos < query.len() { cursor_pos as int } else { query.len() as int })
}

/// The context at the cursor of a query whose text before the cursor is `pre`.
pub open spec fn analyzed(pre: Seq<char>, tokens: Seq<(Token, Span)>, r: CompletionContext) -> bool {
    if trimmed(pre).len() == 0 {
        r is Empty
    } else if in_quote_after(pre) {
        r is InQuotedString
    } else {
        token_context(pre, tokens, r)
    }
}

/// Only the text before the cursor matters. The text before the cursor of a
/// query, cut out and read again with the cursor at its end or anywhere past
/// it, is the same text; so, for the same tokens of that text, `analyze` is
/// held to the same context on the cut text as on the whole query.
pub proof fn lemma_only_text_before_cursor_matters(query: Seq<u8>, cursor_pos: usize, later: usize)
    requires
        valid_utf8(query),
        cursor_on_boundary(query, cursor_pos),
        later >= bytes_to_cursor(query, cursor_pos).len(),
    ensures
        valid_utf8(bytes_to_cursor(query, cursor_pos)),
        cursor_on_boundary(bytes_to_cursor(query, cursor_pos), later),
        bytes_to_cursor(bytes_to_cursor(query, cursor_pos), later) == bytes_to_cursor(query, cursor_pos),
        forall|tokens: Seq<(Token, Span)>, r: CompletionContext|
            #![trigger analyzed(decode_utf8(bytes_to_cursor(query, cursor_pos)), tokens, r)]
            analyzed(decode_utf8(bytes_to_cursor(bytes_to_cursor(query, cursor_pos), later)), tokens, r)
                == analyzed(decode_utf8(bytes_to_cursor(query, cursor_pos)), tokens, r),
{
    let m: int = if cursor_pos < query.len() { cursor_pos as int } else { query.len() as int };
    let pre = bytes_to_cursor(query, cursor_pos);
    vstd::utf8::valid_utf8_split(query, m);
    vstd::utf8::is_char_boundary_start_end_of_seq(pre);
    assert(pre.subrange(0, pre.len() as int) =~= pre);
}

impl QueryAnalyzer {
    /// The text of `query` before the cursor; a cursor past the end stands at the end.
    pub fn query_to_cursor(query: &str, cursor_pos: usize) -> (pre: &str)
        requires
            query.spec_bytes().len() <= usize::MAX,
            cursor_on_boundary(query.spec_bytes(), cursor_pos),
        ensures
            pre.spec_bytes() == bytes_to_cursor(query.spec_bytes(), cursor_pos),
            pre@ == decode_utf8(bytes_to_cursor(query.spec_bytes(), cursor_pos)),
    {
        let len = query.len();
        let m = if cursor_pos < len { cursor_pos } else { len };
        let (pre, _) = query.split_at(m);
        proof {
            assert(decode_utf8(encode_utf8(pre@)) == pre@);
        }
        pre
    }

    /// Analyze query and cursor position to determine completion context.
    /// `tokens` are the lexer's tokens of the query up to the cursor, as
    /// `query_to_cursor` gives it; tokens the lexer could not read are left out.
    pub fn analyze(query: &str, cursor_pos: usize, tokens: &[(Token, Span)]) -> (r: CompletionContext)
        requires
            query.spec_bytes().len() <= usize::MAX,
            cursor_on_boundary(query.spec_bytes(), cursor_pos),
            tokens_well_nested(tokens@),
        ensures
            analyzed(decode_utf8(bytes_to_cursor(query.spec_bytes(), cursor_pos)), tokens@, r),
    {
        let pre = Self::query_to_cursor(query, cursor_pos);
        let chars = chars_of(pre);
        let (i, j) = trim_bounds(&chars);
        if i == j {
            return CompletionContext::Empty;
        }
        if Self::has_unclosed_quote(pre) {
            return CompletionContext::InQuotedString;
        }
        Self::analyze_tokens(pre, tokens)
    }

    /// Whether `s` ends inside an unclosed double-quoted string.
    pub fn has_unclosed_quote(s: &str) -> (b: bool)
        ensures
            b == in_quote_after(s@),
    {
        let chars = chars_of(s);
        let n = chars.len();
        let mut in_quote = false;
        let mut prev_char = ' ';
        let mut i: usize = 0;
        while i < n
            invariant
                0 <= i <= n == chars@.len(),
                chars@ == s@,
                in_quote == in_quote_after(chars@.take(i as int)),
                prev_char == (if i > 0 { chars@[i - 1] } else { ' ' }),
            decreases n - i,
        {
            let c = chars[i];
            proof {
                let t = chars@.take(i + 1);
                assert(t.drop_last() =~= chars@.take(i as int));
                assert(t.last() == c);
                if i >= 1 {
                    assert(t[t.len() - 2] == chars@[i - 1]);
                }
            }
            if c == '"' && prev_char != '\\' {
                in_quote = !in_quote;
            }
            prev_char = c;
            i = i + 1;
        }
        proof {
            assert(chars@.take(n as int) =~= chars@);
        }
        in_quote
    }

    fn count_parens(tokens: &[(Token, Span)]) -> (r: (usize, usize))
        ensures
            r.0 == count_lparen(tokens@),
            r.1 == count_rparen(tokens@),
    {
        let n = tokens.len();
        let mut l: usize = 0;
        let mut r: usize = 0;
        let mut i: usize = 0;
        while i < n
            invariant
                0 <= i <= n == tokens@.len(),
                l == count_lparen(tokens@.take(i as int)),
                r == count_rparen(tokens@.take(i as int)),
                l <= i,
                r <= i,
            decreases n - i,
        {
            proof {
                let t = tokens@.take(i + 1);
                assert(t.drop_last() =~= tokens@.take(i as int));
                assert(t.last() == tokens@[i as int]);
            }
            match &tokens[i].0 {
                Token::LParen => {
                    l = l + 1;
                },
                Token::RParen => {
                    r = r + 1;
                },
                _ => {},
            }
            i = i + 1;
        }
        proof {
            assert(tokens@.take(n as int) =~= tokens@);
        }
        (l, r)
    }

    /// The context that `tokens`, the tokens of the query text `query`, give.
    pub fn analyze_tokens(query: &str, tokens: &[(Token, Span)]) -> (r: CompletionContext)
        requires
            query.spec_bytes().len() <= usize::MAX,
            tokens_well_nested(tokens@),
        ensures
            token_context(query@, tokens@, r),
    {
        let n = tokens.len();
        if n == 0 {
            // Has text but no valid tokens - probably partial text
            let chars = chars_of(query);
            let (i, j) = trim_bounds(&chars);
            let t = query.substring_char(i, j);
            proof {
                let q = query@;
                assert(q =~= q.subrange(0, i as int) + q.subrange(i as int, j as int) + q.subrange(
                    j as int,
                    q.len() as int,
                ));
                lemma_encode_utf8_concat(q.subrange(0, i as int), q.subrange(i as int, j as int));
                lemma_encode_utf8_concat(
                    q.subrange(0, i as int) + q.subrange(i as int, j as int),
                    q.subrange(j as int, q.len() as int),
                );
            }
            let text = String::from_str(t);
            let ql = query.len();
            let tl = t.len();
            let start_pos = ql - tl;
            return CompletionContext::PartialFieldOrTerm { text, start_pos };
        }
        let chars = chars_of(query);
        let ends_with_space = chars.len() > 0 && chars[chars.len() - 1] == ' ';
        let last_span = tokens[n - 1].1;
        match &tokens[n - 1].0 {
            Token::Colon => {
                if n >= 2 {
                    if let Token::Text(field) = &tokens[n - 2].0 {
                        return CompletionContext::FieldValue {
                            field: field.clone(),
                            value: String::new(),
                            value_start: last_span.end,
                        };
                    }
                }
                CompletionContext::AfterTerm
            },
            Token::Text(text) => {
                if n >= 3 {
                    if let Token::Colon = &tokens[n - 2].0 {
                        if let Token::Text(field) = &tokens[n - 3].0 {
                            return CompletionContext::FieldValue {
                                field: field.clone(),
                                value: text.clone(),
                                value_start: last_span.start,
                            };
                        }
                    }
                }
                if ends_with_space {
                    CompletionContext::AfterTerm
                } else {
                    CompletionContext::PartialFieldOrTerm {
                        text: text.clone(),
                        start_pos: last_span.start,
                    }
                }
            },
            Token::QuotedText(_) => {
                if ends_with_space {
                    CompletionContext::AfterTerm
                } else {
                    CompletionContext::InQuotedString
                }
            },
            Token::And | Token::Or | Token::Not => CompletionContext::AfterOperator,
            Token::LParen => {
                let (l, r) = Self::count_parens(tokens);
                CompletionContext::InGroup { depth: l - r }
            },
            Token::RParen => CompletionContext::AfterTerm,
        }
    }
}

} // verus!
