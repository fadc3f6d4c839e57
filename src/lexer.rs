//! The lexer: a cursor over the source characters that hands out one token
//! per call.
use vstd::prelude::*;
use crate::chars::{chars_of, is_valid_first_letter_ident, string_of, trim};
use crate::syntax::{CharClass, block_close, boolean_word, char_at, lex_step, run_end, scan_identifier, scan_token};
use crate::laws::lemma_step;
use crate::tokens::{LiteralKind, Token};

verus! {

/// What the lookahead reads past the end of the input.
pub const EOF_CHAR: char = '\0';

/// The lexer: the source characters and the read position.
pub struct Lexer {
    chars: Vec<char>,
    pos: usize,
}

impl Lexer {
    /// The characters of the source text.
    pub closed spec fn source(&self) -> Seq<char> {
        self.chars@
    }

    /// The read position: the number of characters consumed.
    pub closed spec fn position(&self) -> int {
        self.pos as int
    }

    /// The read position stands within the source.
    pub open spec fn wf(&self) -> bool {
        0 <= self.position() <= self.source().len()
    }

    /// A lexer at the start of `input`.
    pub fn new(input: &str) -> (r: Lexer)
        ensures
            r.wf(),
            r.source() == input@,
            r.position() == 0,
    {
        Lexer { chars: chars_of(input), pos: 0 }
    }

    /// The number of characters consumed so far.
    pub fn offset(&self) -> (r: usize)
        ensures
            r as int == self.position(),
    {
        self.pos
    }

    /// Peeks the character `k` places past the read position.
    fn peek(&self, k: usize) -> (r: char)
        requires
            self.wf(),
        ensures
            r == char_at(self.source(), self.position() + k),
    {
        if self.chars.len() - self.pos > k {
            self.chars[self.pos + k]
        } else {
            EOF_CHAR
        }
    }

    /// Peeks the next character.
    fn first(&self) -> (r: char)
        requires
            self.wf(),
        ensures
            r == char_at(self.source(), self.position()),
    {
        self.peek(0)
    }

    /// Peeks the character after the next one.
    fn second(&self) -> (r: char)
        requires
            self.wf(),
        ensures
            r == char_at(self.source(), self.position() + 1),
    {
        self.peek(1)
    }

    /// Peeks the third character from the read position.
    fn third(&self) -> (r: char)
        requires
            self.wf(),
        ensures
            r == char_at(self.source(), self.position() + 2),
    {
        self.peek(2)
    }

    /// Consumes and returns the next character; at the end of the input it
    /// returns the sentinel and consumes nothing.
    fn bump(&mut self) -> (r: char)
        requires
            old(self).wf(),
        ensures
            final(self).wf(),
            final(self).source() == old(self).source(),
            r == char_at(old(self).source(), old(self).position()),
            final(self).position() == if old(self).position() < old(self).source().len() {
                old(self).position() + 1
            } else {
                old(self).position()
            },
    {
        if self.pos < self.chars.len() {
            let c = self.chars[self.pos];
            self.pos = self.pos + 1;
            c
        } else {
            EOF_CHAR
        }
    }

    /// Consumes the maximal run of characters of class `cls` and returns it.
    fn take_while(&mut self, cls: CharClass) -> (r: Vec<char>)
        requires
            old(self).wf(),
        ensures
            final(self).wf(),
            final(self).source() == old(self).source(),
            old(self).position() <= final(self).position(),
            final(self).position() == run_end(old(self).source(), old(self).position(), cls),
            r@ == old(self).source().subrange(old(self).position(), final(self).position()),
    {
        let ghost s = self.chars@;
        let ghost p0 = self.pos as int;
        let mut taken: Vec<char> = Vec::new();
        while self.pos < self.chars.len() && cls.holds(self.chars[self.pos])
            invariant
                self.chars@ == s,
                0 <= p0 <= self.pos <= s.len(),
                run_end(s, self.pos as int, cls) == run_end(s, p0, cls),
                taken@ == s.subrange(p0, self.pos as int),
            decreases s.len() - self.pos,
        {
            taken.push(self.chars[self.pos]);
            self.pos = self.pos + 1;
            assert(taken@ =~= s.subrange(p0, self.pos as int));
        }
        taken
    }

    /// Consumes the maximal run of characters of class `cls`.
    fn eat_while(&mut self, cls: CharClass)
        requires
            old(self).wf(),
        ensures
            final(self).wf(),
            final(self).source() == old(self).source(),
            old(self).position() <= final(self).position(),
            final(self).position() == run_end(old(self).source(), old(self).position(), cls),
    {
        let ghost s = self.chars@;
        let ghost p0 = self.pos as int;
        while self.pos < self.chars.len() && cls.holds(self.chars[self.pos])
            invariant
                self.chars@ == s,
                0 <= p0 <= self.pos <= s.len(),
                run_end(s, self.pos as int, cls) == run_end(s, p0, cls),
            decreases s.len() - self.pos,
        {
            self.pos = self.pos + 1;
        }
    }
}

/// Whether `w` is one of the four spellings of a boolean after the `#`.
fn is_boolean_word(w: &Vec<char>) -> (r: bool)
    ensures
        r == boolean_word(w@),
{
    (w.len() == 1 && (w[0] == 't' || w[0] == 'f')) || (w.len() == 4 && w[0] == 't' && w[1] == 'r'
        && w[2] == 'u' && w[3] == 'e') || (w.len() == 5 && w[0] == 'f' && w[1] == 'a' && w[2]
        == 'l' && w[3] == 's' && w[4] == 'e')
}

impl Lexer {
    /// Returns the next token and advances past it. White space before it is
    /// skipped; at the end of the input the result is `EOF`, on every call.
    pub fn next_token(&mut self) -> (r: Token)
        requires
            old(self).wf(),
        ensures
            final(self).wf(),
            final(self).source() == old(self).source(),
            r@ == lex_step(old(self).source(), old(self).position()).0,
            final(self).position() == lex_step(old(self).source(), old(self).position()).1,
            r is EOF ==> final(self).position() == old(self).source().len(),
            !(r is EOF) ==> old(self).position() < final(self).position(),
    {
        proof {
            lemma_step(self.source(), self.position());
        }
        self.eat_while(CharClass::Whitespace);
        if self.pos >= self.chars.len() {
            return Token::EOF;
        }
        let first_char = self.bump();
        match (first_char, self.first(), self.second(), self.third()) {
            ('(', _, _, _) => Token::OpenParen,
            (')', _, _, _) => Token::CloseParen,
            ('[', _, _, _) => Token::OpenSquareParen,
            (']', _, _, _) => Token::CloseSquareParen,
            ('{', _, _, _) => Token::OpenCurlyParen,
            ('}', _, _, _) => Token::CloseCurlyParen,
            ('\'', _, _, _) => Token::Apost,
            ('`', _, _, _) => Token::Grave,
            (';', _, _, _) => self.line_comment(),
            ('#', '|', _, _) => self.block_comment(),
            ('#', '!', _, _) => self.directive(),
            ('#', 't', _, _) | ('#', 'f', _, _) => self.boolean(),
            ('#', 'u', '8', '(') => self.bytevector(),
            ('#', '(', _, _) => self.vector(),
            ('|', _, _, _) => self.pipe_identifier(),
            ('"', _, _, _) => self.string_literal(),
            (c, _, _, _) => {
                if is_valid_first_letter_ident(c) {
                    self.identifier(c)
                } else {
                    Token::Unknown
                }
            },
        }
    }

    /// Scans an identifier whose first letter was consumed: the maximal run
    /// of identifier characters. A lone `.` is the pair separator `Dot`.
    fn identifier(&mut self, first_letter: char) -> (r: Token)
        requires
            old(self).wf(),
            1 <= old(self).position(),
            old(self).source()[old(self).position() - 1] == first_letter,
        ensures
            final(self).wf(),
            final(self).source() == old(self).source(),
            (r@, final(self).position()) == scan_identifier(
                old(self).source(),
                old(self).position() - 1,
            ),
    {
        let ghost s = self.chars@;
        let ghost q = self.pos - 1;
        let rest = self.take_while(CharClass::IdentChar);
        let mut content: Vec<char> = Vec::new();
        content.push(first_letter);
        let mut i: usize = 0;
        while i < rest.len()
            invariant
                0 <= i <= rest.len(),
                content@ == seq![first_letter] + rest@.subrange(0, i as int),
            decreases rest.len() - i,
        {
            content.push(rest[i]);
            i = i + 1;
            assert(content@ =~= seq![first_letter] + rest@.subrange(0, i as int));
        }
        assert(content@ =~= s.subrange(q, self.pos as int));
        if content.len() == 1 && content[0] == '.' {
            Token::Dot
        } else {
            Token::Identifier(string_of(&content))
        }
    }

    /// Scans `#(`, whose `#` was consumed.
    fn vector(&mut self) -> (r: Token)
        requires
            old(self).wf(),
            1 <= old(self).position(),
            old(self).source()[old(self).position() - 1] == '#',
            char_at(old(self).source(), old(self).position()) == '(',
        ensures
            final(self).wf(),
            final(self).source() == old(self).source(),
            (r@, final(self).position()) == scan_token(old(self).source(), old(self).position() - 1),
    {
        self.bump();
        Token::OpenVec
    }

    /// Scans `#u8(`, whose `#` was consumed.
    fn bytevector(&mut self) -> (r: Token)
        requires
            old(self).wf(),
            1 <= old(self).position(),
            old(self).source()[old(self).position() - 1] == '#',
            char_at(old(self).source(), old(self).position()) == 'u',
            char_at(old(self).source(), old(self).position() + 1) == '8',
            char_at(old(self).source(), old(self).position() + 2) == '(',
        ensures
            final(self).wf(),
            final(self).source() == old(self).source(),
            (r@, final(self).position()) == scan_token(old(self).source(), old(self).position() - 1),
    {
        self.bump();
        self.bump();
        self.bump();
        Token::OpenByteVec
    }

    /// Scans a boolean literal whose `#` was consumed: the word after it must
    /// be `t`, `true`, `f` or `false`, else the word is `Unknown`.
    fn boolean(&mut self) -> (r: Token)
        requires
            old(self).wf(),
            1 <= old(self).position(),
            old(self).source()[old(self).position() - 1] == '#',
            char_at(old(self).source(), old(self).position()) == 't' || char_at(
                old(self).source(),
                old(self).position(),
            ) == 'f',
        ensures
            final(self).wf(),
            final(self).source() == old(self).source(),
            (r@, final(self).position()) == scan_token(old(self).source(), old(self).position() - 1),
    {
        let content = self.take_while(CharClass::IdentChar);
        if is_boolean_word(&content) {
            Token::Literal(LiteralKind::Boolean(string_of(&content)))
        } else {
            Token::Unknown
        }
    }

    /// Scans `|...|`, whose opening `|` was consumed: the text up to the next
    /// `|` is the identifier. Without a closing `|` the rest is `Unknown`.
    fn pipe_identifier(&mut self) -> (r: Token)
        requires
            old(self).wf(),
            1 <= old(self).position(),
            old(self).source()[old(self).position() - 1] == '|',
        ensures
            final(self).wf(),
            final(self).source() == old(self).source(),
            (r@, final(self).position()) == scan_token(old(self).source(), old(self).position() - 1),
    {
        let content = self.take_while(CharClass::AllBut('|'));
        if self.pos < self.chars.len() {
            self.bump();
            Token::Identifier(string_of(&content))
        } else {
            Token::Unknown
        }
    }

    /// Scans a string literal, whose opening `"` was consumed: the raw text up
    /// to the next `"`. Without a closing `"` the rest is `Unknown`.
    fn string_literal(&mut self) -> (r: Token)
        requires
            old(self).wf(),
            1 <= old(self).position(),
            old(self).source()[old(self).position() - 1] == '"',
        ensures
            final(self).wf(),
            final(self).source() == old(self).source(),
            (r@, final(self).position()) == scan_token(old(self).source(), old(self).position() - 1),
    {
        let content = self.take_while(CharClass::AllBut('"'));
        if self.pos < self.chars.len() {
            self.bump();
            Token::Literal(LiteralKind::Str(string_of(&content)))
        } else {
            Token::Unknown
        }
    }

    /// Scans a line comment, whose `;` was consumed: the rest of the line,
    /// trimmed, without the line break.
    fn line_comment(&mut self) -> (r: Token)
        requires
            old(self).wf(),
            1 <= old(self).position(),
            old(self).source()[old(self).position() - 1] == ';',
        ensures
            final(self).wf(),
            final(self).source() == old(self).source(),
            (r@, final(self).position()) == scan_token(old(self).source(), old(self).position() - 1),
    {
        let content = self.take_while(CharClass::AllBut('\n'));
        Token::Comment(trim(&string_of(&content)))
    }

    /// Scans a block comment, whose `#` was consumed: the text up to the first
    /// `|#`, trimmed. Without a closing `|#` the rest is `Unknown`.
    fn block_comment(&mut self) -> (r: Token)
        requires
            old(self).wf(),
            1 <= old(self).position(),
            old(self).source()[old(self).position() - 1] == '#',
            char_at(old(self).source(), old(self).position()) == '|',
        ensures
            final(self).wf(),
            final(self).source() == old(self).source(),
            (r@, final(self).position()) == scan_token(old(self).source(), old(self).position() - 1),
    {
        let ghost s = self.chars@;
        // the '|' of the opener
        self.bump();
        let ghost start = self.pos as int;
        let mut content: Vec<char> = Vec::new();
        while self.pos < self.chars.len() && !(self.first() == '|' && self.second() == '#')
            invariant
                self.wf(),
                self.source() == s,
                self.chars@ == s,
                2 <= start <= self.pos <= s.len(),
                block_close(s, self.pos as int) == block_close(s, start),
                content@ == s.subrange(start, self.pos as int),
            decreases s.len() - self.pos,
        {
            content.push(self.chars[self.pos]);
            self.pos = self.pos + 1;
            assert(content@ =~= s.subrange(start, self.pos as int));
        }
        if self.pos < self.chars.len() {
            self.bump();
            self.bump();
            Token::BlockComment(trim(&string_of(&content)))
        } else {
            Token::Unknown
        }
    }

    /// Scans a directive, whose `#` was consumed: the run of characters after
    /// `#!` up to white space or the end, which may be empty.
    fn directive(&mut self) -> (r: Token)
        requires
            old(self).wf(),
            1 <= old(self).position(),
            old(self).source()[old(self).position() - 1] == '#',
            char_at(old(self).source(), old(self).position()) == '!',
        ensures
            final(self).wf(),
            final(self).source() == old(self).source(),
            (r@, final(self).position()) == scan_token(old(self).source(), old(self).position() - 1),
    {
        // the '!'
        self.bump();
        let content = self.take_while(CharClass::NonWhitespace);
        Token::Directive(string_of(&content))
    }
}

} // verus!
