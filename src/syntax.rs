//! The lexical grammar as spec functions over the source characters: where
//! each token starts and ends, and which token it is.
use vstd::prelude::*;
use crate::chars::{ident_char, ident_start, trim_view, white_space};
use crate::chars::{is_identifier_char, is_whitespace};
use crate::lexer::EOF_CHAR;
use crate::tokens::{LiteralView, TokenView};

verus! {

/// The predicates that the lexer scans maximal runs of characters with.
#[derive(Clone, Copy)]
pub enum CharClass {
    /// White space.
    Whitespace,
    /// Anything but white space.
    NonWhitespace,
    /// Characters that may stand inside an identifier.
    IdentChar,
    /// Anything but the given character.
    AllBut(char),
}

/// Whether `c` belongs to the class `cls`.
pub open spec fn class_holds(cls: CharClass, c: char) -> bool {
    match cls {
        CharClass::Whitespace => white_space(c),
        CharClass::NonWhitespace => !white_space(c),
        CharClass::IdentChar => ident_char(c),
        CharClass::AllBut(d) => c != d,
    }
}

impl CharClass {
    /// Whether `c` belongs to this class.
    pub fn holds(&self, c: char) -> (r: bool)
        ensures
            r == class_holds(*self, c),
    {
        match self {
            CharClass::Whitespace => is_whitespace(c),
            CharClass::NonWhitespace => !is_whitespace(c),
            CharClass::IdentChar => is_identifier_char(c),
            CharClass::AllBut(d) => c != *d,
        }
    }
}

/// The character at `i`, or the end-of-input sentinel past the end.
pub open spec fn char_at(s: Seq<char>, i: int) -> char {
    if 0 <= i < s.len() {
        s[i]
    } else {
        EOF_CHAR
    }
}

/// The end of the maximal run of characters of class `cls` that starts at `i`.
pub open spec fn run_end(s: Seq<char>, i: int, cls: CharClass) -> int
    decreases s.len() - i,
{
    if 0 <= i < s.len() && class_holds(cls, s[i]) {
        run_end(s, i + 1, cls)
    } else {
        i
    }
}

/// The first index from `i` on where `|#` stands, or the length of `s` when
/// there is none.
pub open spec fn block_close(s: Seq<char>, i: int) -> int
    decreases s.len() - i,
{
    if i < 0 || i + 1 >= s.len() {
        s.len() as int
    } else if s[i] == '|' && s[i + 1] == '#' {
        i
    } else {
        block_close(s, i + 1)
    }
}

/// The four spellings of a boolean literal after the `#`.
pub open spec fn boolean_word(w: Seq<char>) -> bool {
    ||| w.len() == 1 && (w[0] == 't' || w[0] == 'f')
    ||| w.len() == 4 && w[0] == 't' && w[1] == 'r' && w[2] == 'u' && w[3] == 'e'
    ||| w.len() == 5 && w[0] == 'f' && w[1] == 'a' && w[2] == 'l' && w[3] == 's' && w[4] == 'e'
}

/// The identifier that starts at `q`: the maximal run of identifier
/// characters after its first one. A lone `.` is the pair separator.
pub open spec fn scan_identifier(s: Seq<char>, q: int) -> (TokenView, int) {
    let e = run_end(s, q + 1, CharClass::IdentChar);
    let w = s.subrange(q, e);
    if w.len() == 1 && w[0] == '.' {
        (TokenView::Dot, e)
    } else {
        (TokenView::Identifier(w), e)
    }
}

/// The token that starts at `q`, where `s[q]` is not white space, and the
/// index just past the characters it consumes.
pub open spec fn scan_token(s: Seq<char>, q: int) -> (TokenView, int) {
    let c = char_at(s, q);
    let c1 = char_at(s, q + 1);
    let c2 = char_at(s, q + 2);
    let c3 = char_at(s, q + 3);
    if c == '(' {
        (TokenView::OpenParen, q + 1)
    } else if c == ')' {
        (TokenView::CloseParen, q + 1)
    } else if c == '[' {
        (TokenView::OpenSquareParen, q + 1)
    } else if c == ']' {
        (TokenView::CloseSquareParen, q + 1)
    } else if c == '{' {
        (TokenView::OpenCurlyParen, q + 1)
    } else if c == '}' {
        (TokenView::CloseCurlyParen, q + 1)
    } else if c == '\'' {
        (TokenView::Apost, q + 1)
    } else if c == '`' {
        (TokenView::Grave, q + 1)
    } else if c == ';' {
        let e = run_end(s, q + 1, CharClass::AllBut('\n'));
        (TokenView::Comment(trim_view(s.subrange(q + 1, e))), e)
    } else if c == '#' && c1 == '|' {
        let j = block_close(s, q + 2);
        if j < s.len() {
            (TokenView::BlockComment(trim_view(s.subrange(q + 2, j))), j + 2)
        } else {
            (TokenView::Unknown, s.len() as int)
        }
    } else if c == '#' && c1 == '!' {
        let e = run_end(s, q + 2, CharClass::NonWhitespace);
        (TokenView::Directive(s.subrange(q + 2, e)), e)
    } else if c == '#' && (c1 == 't' || c1 == 'f') {
        let e = run_end(s, q + 1, CharClass::IdentChar);
        let w = s.subrange(q + 1, e);
        if boolean_word(w) {
            (TokenView::Literal(LiteralView::Boolean(w)), e)
        } else {
            (TokenView::Unknown, e)
        }
    } else if c == '#' && c1 == 'u' && c2 == '8' && c3 == '(' {
        (TokenView::OpenByteVec, q + 4)
    } else if c == '#' && c1 == '(' {
        (TokenView::OpenVec, q + 2)
    } else if c == '|' {
        let j = run_end(s, q + 1, CharClass::AllBut('|'));
        if j < s.len() {
            (TokenView::Identifier(s.subrange(q + 1, j)), j + 1)
        } else {
            (TokenView::Unknown, j)
        }
    } else if c == '"' {
        let j = run_end(s, q + 1, CharClass::AllBut('"'));
        if j < s.len() {
            (TokenView::Literal(LiteralView::Str(s.subrange(q + 1, j))), j + 1)
        } else {
            (TokenView::Unknown, j)
        }
    } else if ident_start(c) {
        scan_identifier(s, q)
    } else {
        (TokenView::Unknown, q + 1)
    }
}

/// The next token from position `p`: white space is skipped, then either the
/// input is exhausted (`EOF`, at the end) or one token is scanned. The result
/// holds the token and the position after it.
pub open spec fn lex_step(s: Seq<char>, p: int) -> (TokenView, int) {
    let q = run_end(s, p, CharClass::Whitespace);
    if q >= s.len() {
        (TokenView::EOF, q)
    } else {
        scan_token(s, q)
    }
}

/// Where the token scanned from position `p` starts: after the white space.
pub open spec fn token_start(s: Seq<char>, p: int) -> int {
    run_end(s, p, CharClass::Whitespace)
}

/// The tokens of `s` from position `p` up to (not including) `EOF`, each
/// with the start and the end of the characters it consumed.
pub open spec fn lex_from(s: Seq<char>, p: int) -> Seq<(TokenView, int, int)>
    decreases s.len() - p,
{
    let step = lex_step(s, p);
    if step.0 is EOF || step.1 <= p || step.1 > s.len() {
        Seq::empty()
    } else {
        seq![(step.0, token_start(s, p), step.1)] + lex_from(s, step.1)
    }
}

/// A run of characters from `a` up to `b` that are all white space.
pub open spec fn all_white(s: Seq<char>, a: int, b: int) -> bool {
    &&& 0 <= a <= b <= s.len()
    &&& forall|k: int| a <= k < b ==> white_space(#[trigger] s[k])
}

/// A run of class `cls` ends within the input, after its start, and holds only
/// characters of the class.
pub proof fn lemma_run_end(s: Seq<char>, i: int, cls: CharClass)
    requires
        0 <= i <= s.len(),
    ensures
        i <= run_end(s, i, cls) <= s.len(),
        forall|k: int| i <= k < run_end(s, i, cls) ==> class_holds(cls, #[trigger] s[k]),
        run_end(s, i, cls) < s.len() ==> !class_holds(cls, s[run_end(s, i, cls)]),
    decreases s.len() - i,
{
    if i < s.len() && class_holds(cls, s[i]) {
        lemma_run_end(s, i + 1, cls);
    }
}

/// `block_close` finds `|#` within the input, or returns the length.
pub proof fn lemma_block_close(s: Seq<char>, i: int)
    requires
        0 <= i <= s.len(),
    ensures
        i <= block_close(s, i) <= s.len(),
        block_close(s, i) < s.len() ==> block_close(s, i) + 1 < s.len(),
    decreases s.len() - i,
{
    if i + 1 < s.len() && !(s[i] == '|' && s[i + 1] == '#') {
        lemma_block_close(s, i + 1);
    }
}

} // verus!
