//! Properties of the token stream as a whole.
use vstd::prelude::*;
use crate::chars::white_space;
use crate::syntax::{CharClass, all_white, lex_from, lex_step, run_end, scan_token};
use crate::syntax::{lemma_block_close, lemma_run_end};
use crate::tokens::TokenView;

verus! {

/// Where the gap before token `i` of `toks` starts: at `p` for the first
/// token, else at the end of the token before.
pub open spec fn gap_start(p: int, toks: Seq<(TokenView, int, int)>, i: int) -> int {
    if i == 0 {
        p
    } else {
        toks[i - 1].2
    }
}

/// Where the tokens of `toks` end: at `p` when there are none.
pub open spec fn tokens_end(p: int, toks: Seq<(TokenView, int, int)>) -> int {
    if toks.len() == 0 {
        p
    } else {
        toks.last().2
    }
}

/// The spans of `toks` cover `s` from `p` on, one after the other: each is
/// non-empty and starts on a character that is not white space, and only
/// white space lies before, between and after them.
pub open spec fn spans_partition(s: Seq<char>, p: int, toks: Seq<(TokenView, int, int)>) -> bool {
    &&& forall|i: int|
        0 <= i < toks.len() ==> {
            &&& (#[trigger] toks[i]).1 < toks[i].2 <= s.len()
            &&& !white_space(s[toks[i].1])
            &&& all_white(s, gap_start(p, toks, i), toks[i].1)
            &&& !(toks[i].0 is EOF)
        }
    &&& all_white(s, tokens_end(p, toks), s.len() as int)
}

/// A token scanned at a character that is not white space consumes at least
/// that character, stays within the input, and is never `EOF`.
proof fn lemma_scan_progress(s: Seq<char>, q: int)
    requires
        0 <= q < s.len(),
    ensures
        q < scan_token(s, q).1 <= s.len(),
        !(scan_token(s, q).0 is EOF),
{
    if q + 1 <= s.len() {
        lemma_run_end(s, q + 1, CharClass::AllBut('\n'));
        lemma_run_end(s, q + 1, CharClass::IdentChar);
        lemma_run_end(s, q + 1, CharClass::AllBut('|'));
        lemma_run_end(s, q + 1, CharClass::AllBut('"'));
    }
    if q + 2 <= s.len() {
        lemma_run_end(s, q + 2, CharClass::NonWhitespace);
        lemma_block_close(s, q + 2);
    }
}

/// One step from `p`: white space up to the token's start, then either `EOF`
/// at the end of the input or a token that moves strictly forward.
pub proof fn lemma_step(s: Seq<char>, p: int)
    requires
        0 <= p <= s.len(),
    ensures
        all_white(s, p, run_end(s, p, CharClass::Whitespace)),
        lex_step(s, p).0 is EOF <==> run_end(s, p, CharClass::Whitespace) == s.len(),
        lex_step(s, p).0 is EOF ==> lex_step(s, p).1 == s.len(),
        !(lex_step(s, p).0 is EOF) ==> {
            &&& run_end(s, p, CharClass::Whitespace) < lex_step(s, p).1 <= s.len()
            &&& !white_space(s[run_end(s, p, CharClass::Whitespace)])
        },
{
    lemma_run_end(s, p, CharClass::Whitespace);
    let q = run_end(s, p, CharClass::Whitespace);
    if q < s.len() {
        lemma_scan_progress(s, q);
    }
}

/// Once the lexer has returned `EOF` it stands at the end of the input, and
/// the next call returns `EOF` again without moving: so does every later call.
pub proof fn lemma_eof_is_terminal(s: Seq<char>, p: int)
    requires
        0 <= p <= s.len(),
        lex_step(s, p).0 is EOF,
    ensures
        lex_step(s, p).1 == s.len(),
        lex_step(s, lex_step(s, p).1) == (TokenView::EOF, s.len() as int),
{
    lemma_step(s, p);
    lemma_step(s, s.len() as int);
}

/// The spans of the tokens from `p` up to `EOF` partition the input after
/// `p`, up to the white space that the lexer skips; after the last token
/// only `EOF` is left.
pub proof fn lemma_spans_partition_from(s: Seq<char>, p: int)
    requires
        0 <= p <= s.len(),
    ensures
        spans_partition(s, p, lex_from(s, p)),
        lex_step(s, tokens_end(p, lex_from(s, p))).0 is EOF,
    decreases s.len() - p,
{
    lemma_step(s, p);
    let step = lex_step(s, p);
    let toks = lex_from(s, p);
    if !(step.0 is EOF) {
        let e = step.1;
        lemma_spans_partition_from(s, e);
        let rest = lex_from(s, e);
        assert(toks == seq![(step.0, run_end(s, p, CharClass::Whitespace), e)] + rest);
        assert forall|i: int| 1 <= i < toks.len() implies #[trigger] toks[i] == rest[i - 1]
            && gap_start(p, toks, i) == gap_start(e, rest, i - 1) by {}
        assert(tokens_end(p, toks) == tokens_end(e, rest));
    }
}

/// The token spans of a whole input partition it, up to the white space that
/// the lexer skips, and after the last token only `EOF` is left.
pub proof fn lemma_spans_partition(s: Seq<char>)
    ensures
        spans_partition(s, 0, lex_from(s, 0)),
        lex_step(s, tokens_end(0, lex_from(s, 0))).0 is EOF,
{
    lemma_spans_partition_from(s, 0);
}

} // verus!
