//! Splits a search query into colored segments for display.
//!
//! The query language's lexer hands over every token with its byte span;
//! tokens it could not read come as `None`. Gaps between tokens are white
//! space, which the lexer skips.
use vstd::prelude::*;
use crate::completion::query_analyzer::{Span, Token};

verus! {

/// How a segment of the query is colored.
#[derive(Debug, Clone, Copy, PartialEq, Eq, Structural)]
pub enum HighlightKind {
    /// Text between tokens
    Whitespace,
    /// A word followed by a colon: a field name
    Field,
    /// A value: a word that is not a field name, or a quoted string
    Text,
    /// An operator, a colon or a parenthesis
    Delimiter,
    /// Text the lexer could not read
    Error,
}

/// A byte range of the query and its coloring.
#[derive(Debug, Clone, Copy, PartialEq, Eq, Structural)]
pub struct HighlightSegment {
    pub start: usize,
    pub end: usize,
    pub kind: HighlightKind,
}

/// The coloring of the `i`-th token.
pub open spec fn token_kind(tokens: Seq<(Option<Token>, Span)>, i: int) -> HighlightKind {
    match tokens[i].0 {
        None => HighlightKind::Error,
        Some(Token::QuotedText(_)) => HighlightKind::Text,
        Some(Token::Text(_)) => if i + 1 < tokens.len() && tokens[i + 1].0 matches Some(Token::Colon) {
            HighlightKind::Field
        } else {
            HighlightKind::Text
        },
        Some(_) => HighlightKind::Delimiter,
    }
}

/// The segments of the first `k` tokens, with the end of the last one.
pub open spec fn segments_through(tokens: Seq<(Option<Token>, Span)>, k: nat) -> (Seq<HighlightSegment>, usize)
    decreases k,
{
    if k == 0 || k > tokens.len() {
        (Seq::empty(), 0usize)
    } else {
        let (prev, last_end) = segments_through(tokens, (k - 1) as nat);
        let span = tokens[k - 1].1;
        let gap = if span.start > last_end {
            seq![HighlightSegment { start: last_end, end: span.start, kind: HighlightKind::Whitespace }]
        } else {
            Seq::empty()
        };
        let seg = HighlightSegment { start: span.start, end: span.end, kind: token_kind(tokens, k - 1) };
        (prev + gap + seq![seg], span.end)
    }
}

/// All segments of a query of `text_len` bytes: each token, the gaps before
/// tokens, and what follows the last token.
pub open spec fn highlight_spec(text_len: usize, tokens: Seq<(Option<Token>, Span)>) -> Seq<HighlightSegment> {
    let (segs, last_end) = segments_through(tokens, tokens.len());
    if last_end < text_len {
        segs.push(HighlightSegment { start: last_end, end: text_len, kind: HighlightKind::Whitespace })
    } else {
        segs
    }
}

/// The segments that are not white space, in order.
pub open spec fn non_whitespace(segs: Seq<HighlightSegment>) -> Seq<HighlightSegment>
    decreases segs.len(),
{
    if segs.len() == 0 {
        Seq::empty()
    } else {
        non_whitespace(segs.drop_last()) + if segs.last().kind != HighlightKind::Whitespace {
            seq![segs.last()]
        } else {
            Seq::empty()
        }
    }
}

/// One segment per token: its span, colored by its kind.
pub open spec fn token_segments(tokens: Seq<(Option<Token>, Span)>) -> Seq<HighlightSegment> {
    Seq::new(tokens.len(), |i: int| HighlightSegment { start: tokens[i].1.start, end: tokens[i].1.end, kind: token_kind(tokens, i) })
}

/// How each token of the query is colored. Its segment spans exactly the
/// token. A token the lexer could not read is an error, and no other token
/// is; a quoted string is a value; a bare word is a field name when a colon
/// follows it and a value otherwise; `AND`, `OR`, `NOT`, colons and
/// parentheses are delimiters. No token is colored as white space.
pub proof fn lemma_token_colors(tokens: Seq<(Option<Token>, Span)>, i: int)
    requires
        0 <= i < tokens.len(),
    ensures
        token_segments(tokens)[i].start == tokens[i].1.start,
        token_segments(tokens)[i].end == tokens[i].1.end,
        token_segments(tokens)[i].kind != HighlightKind::Whitespace,
        (token_segments(tokens)[i].kind == HighlightKind::Error) <==> tokens[i].0 is None,
        (tokens[i].0 matches Some(Token::QuotedText(_))) ==> token_segments(tokens)[i].kind == HighlightKind::Text,
        (tokens[i].0 matches Some(Token::Text(_))) ==> (token_segments(tokens)[i].kind == HighlightKind::Field
            <==> (i + 1 < tokens.len() && (tokens[i + 1].0 matches Some(Token::Colon)))),
        (tokens[i].0 matches Some(Token::Text(_))) ==> (token_segments(tokens)[i].kind == HighlightKind::Field
            || token_segments(tokens)[i].kind == HighlightKind::Text),
        (tokens[i].0 matches Some(Token::And)) || (tokens[i].0 matches Some(Token::Or))
            || (tokens[i].0 matches Some(Token::Not)) || (tokens[i].0 matches Some(Token::Colon))
            || (tokens[i].0 matches Some(Token::LParen)) || (tokens[i].0 matches Some(Token::RParen))
            ==> token_segments(tokens)[i].kind == HighlightKind::Delimiter,
{
}

proof fn lemma_non_whitespace_append(a: Seq<HighlightSegment>, b: Seq<HighlightSegment>)
    ensures
        non_whitespace(a + b) == non_whitespace(a) + non_whitespace(b),
    decreases b.len(),
{
    if b.len() == 0 {
        assert(a + b =~= a);
        assert(non_whitespace(a) + non_whitespace(b) =~= non_whitespace(a));
    } else {
        lemma_non_whitespace_append(a, b.drop_last());
        assert((a + b).drop_last() =~= a + b.drop_last());
        assert((a + b).last() == b.last());
        assert(non_whitespace(a + b) =~= non_whitespace(a) + non_whitespace(b));
    }
}

proof fn lemma_non_whitespace_one(s: HighlightSegment)
    ensures
        non_whitespace(seq![s]) == (if s.kind != HighlightKind::Whitespace {
            seq![s]
        } else {
            Seq::<HighlightSegment>::empty()
        }),
{
    reveal_with_fuel(non_whitespace, 2);
    let one = seq![s];
    assert(one.drop_last() =~= Seq::<HighlightSegment>::empty());
    assert(one.last() == s);
    if s.kind != HighlightKind::Whitespace {
        assert(Seq::<HighlightSegment>::empty() + one =~= one);
    } else {
        assert(Seq::<HighlightSegment>::empty() + Seq::<HighlightSegment>::empty() =~= Seq::<HighlightSegment>::empty());
    }
}

proof fn lemma_segments_direct(tokens: Seq<(Option<Token>, Span)>, k: nat)
    requires
        k <= tokens.len(),
    ensures
        non_whitespace(segments_through(tokens, k).0) == token_segments(tokens).take(k as int),
        forall|j: int| 0 <= j < segments_through(tokens, k).0.len()
            && (#[trigger] segments_through(tokens, k).0[j]).kind == HighlightKind::Whitespace
            ==> segments_through(tokens, k).0[j].start < segments_through(tokens, k).0[j].end,
    decreases k,
{
    if k == 0 {
        assert(token_segments(tokens).take(0) =~= Seq::<HighlightSegment>::empty());
    } else {
        lemma_segments_direct(tokens, (k - 1) as nat);
        let (prev, le) = segments_through(tokens, (k - 1) as nat);
        let span = tokens[k - 1].1;
        let gap = if span.start > le {
            seq![HighlightSegment { start: le, end: span.start, kind: HighlightKind::Whitespace }]
        } else {
            Seq::empty()
        };
        let seg = HighlightSegment { start: span.start, end: span.end, kind: token_kind(tokens, k - 1) };
        let all = segments_through(tokens, k).0;
        assert(all == prev + gap + seq![seg]);
        lemma_non_whitespace_append(prev + gap, seq![seg]);
        lemma_non_whitespace_append(prev, gap);
        assert(non_whitespace(gap) == Seq::<HighlightSegment>::empty()) by {
            if span.start > le {
                lemma_non_whitespace_one(HighlightSegment { start: le, end: span.start, kind: HighlightKind::Whitespace });
            }
        }
        assert(seg.kind != HighlightKind::Whitespace);
        lemma_non_whitespace_one(seg);
        assert(non_whitespace(prev + gap) =~= non_whitespace(prev));
        assert(token_segments(tokens).take(k as int) =~= token_segments(tokens).take(k - 1) + seq![seg]);
        assert forall|j: int| 0 <= j < all.len() && (#[trigger] all[j]).kind == HighlightKind::Whitespace
            implies all[j].start < all[j].end by {
            if j < prev.len() {
                assert(all[j] == prev[j]);
            } else if j < prev.len() + gap.len() {
                assert(all[j] == gap[j - prev.len()]);
            }
        }
    }
}

/// The colored segments of a query of `text_len` bytes whose tokens are
/// `tokens`: one segment per token, in order, with its span and its coloring;
/// white space segments fill the gaps before tokens and after the last one.
/// When the spans lie in order within the text, the segments cover it.
pub fn highlight_query(text_len: usize, tokens: &[(Option<Token>, Span)]) -> (segs: Vec<HighlightSegment>)
    ensures
        non_whitespace(segs@) == token_segments(tokens@),
        forall|j: int| 0 <= j < segs@.len() && (#[trigger] segs@[j]).kind == HighlightKind::Whitespace
            ==> segs@[j].start < segs@[j].end,
        spans_in_order(tokens@, text_len) ==> covers(segs@, 0, text_len as int),
        segs@ == highlight_spec(text_len, tokens@),
{
    let n = tokens.len();
    let mut segs: Vec<HighlightSegment> = Vec::new();
    let mut last_end: usize = 0;
    let mut i: usize = 0;
    while i < n
        invariant
            0 <= i <= n == tokens@.len(),
            (segs@, last_end) == segments_through(tokens@, i as nat),
        decreases n - i,
    {
        let span = tokens[i].1;
        if span.start > last_end {
            segs.push(HighlightSegment { start: last_end, end: span.start, kind: HighlightKind::Whitespace });
        }
        let kind = match &tokens[i].0 {
            None => HighlightKind::Error,
            Some(Token::QuotedText(_)) => HighlightKind::Text,
            Some(Token::Text(_)) => {
                if i + 1 < n && matches!(&tokens[i + 1].0, Some(Token::Colon)) {
                    HighlightKind::Field
                } else {
                    HighlightKind::Text
                }
            },
            Some(_) => HighlightKind::Delimiter,
        };
        segs.push(HighlightSegment { start: span.start, end: span.end, kind });
        last_end = span.end;
        proof {
            let (prev, le) = segments_through(tokens@, i as nat);
            let gap = if span.start > le {
                seq![HighlightSegment { start: le, end: span.start, kind: HighlightKind::Whitespace }]
            } else {
                Seq::empty()
            };
            assert(segs@ =~= prev + gap + seq![HighlightSegment { start: span.start, end: span.end, kind: token_kind(tokens@, i as int) }]);
        }
        i = i + 1;
    }
    if last_end < text_len {
        segs.push(HighlightSegment { start: last_end, end: text_len, kind: HighlightKind::Whitespace });
    }
    proof {
        let (body, le) = segments_through(tokens@, n as nat);
        lemma_segments_direct(tokens@, n as nat);
        assert(token_segments(tokens@).take(n as int) =~= token_segments(tokens@));
        if le < text_len {
            let ws = HighlightSegment { start: le, end: text_len, kind: HighlightKind::Whitespace };
            assert(segs@ == body.push(ws));
            assert(segs@.drop_last() =~= body);
            assert forall|j: int| 0 <= j < segs@.len() && (#[trigger] segs@[j]).kind == HighlightKind::Whitespace
                implies segs@[j].start < segs@[j].end by {
                if j < body.len() {
                    assert(segs@[j] == body[j]);
                }
            }
        }
        if spans_in_order(tokens@, text_len) {
            lemma_highlight_covers_text(text_len, tokens@);
        }
    }
    segs
}

/// Whether `segs`, in order, cover the bytes `from..to` one after the other,
/// without gaps or overlaps.
pub open spec fn covers(segs: Seq<HighlightSegment>, from: int, to: int) -> bool
    decreases segs.len(),
{
    if segs.len() == 0 {
        from == to
    } else {
        &&& segs.last().end == to
        &&& segs.last().start <= segs.last().end
        &&& covers(segs.drop_last(), from, segs.last().start as int)
    }
}

/// Whether the tokens' spans lie in order within a text of `text_len` bytes:
/// each span ends no earlier than it starts, and no later than the next starts.
pub open spec fn spans_in_order(tokens: Seq<(Option<Token>, Span)>, text_len: usize) -> bool {
    &&& forall|i: int| 0 <= i < tokens.len() ==> (#[trigger] tokens[i]).1.start <= tokens[i].1.end
    &&& forall|i: int| 0 < i < tokens.len() ==> tokens[i - 1].1.end <= (#[trigger] tokens[i]).1.start
    &&& tokens.len() > 0 ==> tokens.last().1.end <= text_len
}

proof fn lemma_segments_cover(tokens: Seq<(Option<Token>, Span)>, text_len: usize, k: nat)
    requires
        spans_in_order(tokens, text_len),
        k <= tokens.len(),
    ensures
        covers(segments_through(tokens, k).0, 0, segments_through(tokens, k).1 as int),
        k > 0 ==> segments_through(tokens, k).1 == tokens[k - 1].1.end,
        k == 0 ==> segments_through(tokens, k).1 == 0,
    decreases k,
{
    if k > 0 {
        lemma_segments_cover(tokens, text_len, (k - 1) as nat);
        let (prev, le) = segments_through(tokens, (k - 1) as nat);
        let span = tokens[k - 1].1;
        assert(span.start <= span.end);
        if k > 1 {
            assert(tokens[k - 2].1.end <= tokens[k - 1].1.start);
        }
        let seg = HighlightSegment { start: span.start, end: span.end, kind: token_kind(tokens, k - 1) };
        if span.start > le {
            let ws = HighlightSegment { start: le, end: span.start, kind: HighlightKind::Whitespace };
            let with_gap = prev + seq![ws];
            assert(with_gap.drop_last() =~= prev);
            assert(covers(with_gap, 0, span.start as int));
            assert((with_gap + seq![seg]).drop_last() =~= with_gap);
            assert(prev + seq![ws] + seq![seg] == with_gap + seq![seg]);
        } else {
            assert(span.start == le);
            assert((prev + Seq::<HighlightSegment>::empty() + seq![seg]).drop_last() =~= prev);
        }
    }
}

/// Every byte of the query gets exactly one color: when the tokens' spans lie
/// in order within the text, the segments cover the text from its first byte
/// to its last, one after the other.
pub proof fn lemma_highlight_covers_text(text_len: usize, tokens: Seq<(Option<Token>, Span)>)
    requires
        spans_in_order(tokens, text_len),
    ensures
        covers(highlight_spec(text_len, tokens), 0, text_len as int),
{
    lemma_segments_cover(tokens, text_len, tokens.len());
    let (segs, last_end) = segments_through(tokens, tokens.len());
    if last_end < text_len {
        let ws = HighlightSegment { start: last_end, end: text_len, kind: HighlightKind::Whitespace };
        assert(segs.push(ws).drop_last() =~= segs);
    } else {
        if tokens.len() > 0 {
            assert(last_end == tokens.last().1.end);
        }
    }
}

} // verus!
