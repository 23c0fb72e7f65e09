//! The scanner: one left-to-right pass over the source text that produces an
//! ordered token sequence terminated by an end-of-input marker, or fails with
//! a positioned error.
//!
//! The behaviour is stated by the recursive specification [`scan_from`],
//! which maps a character sequence, a position and a 1-based line counter to
//! the tokens of the remaining input.

use vstd::prelude::*;
use vstd::string::StrSliceExecFns;
use vstd::string::StringExecFns;

use crate::tokens::{keyword_kind, Lit, LitKind, LitView, Token, TokenKind, TokenView};

verus! {

// ------------------------------------------------------------------
// Character classes
// ------------------------------------------------------------------

/// An ASCII decimal digit.
pub open spec fn is_digit_char(c: char) -> bool {
    '0' <= c && c <= '9'
}

/// An ASCII alphabetic character. Identifiers start with one of these;
/// the underscore is deliberately not included.
pub open spec fn is_alpha_char(c: char) -> bool {
    ('a' <= c && c <= 'z') || ('A' <= c && c <= 'Z')
}

/// An ASCII alphanumeric character: what may continue an identifier.
pub open spec fn is_alnum_char(c: char) -> bool {
    is_digit_char(c) || is_alpha_char(c)
}

/// Whitespace that the scanner discards without a token.
pub open spec fn is_blank_char(c: char) -> bool {
    c == ' ' || c == '\r' || c == '\t' || c == '\n'
}

/// Executable test for [`is_digit_char`].
pub fn digit_exec(c: char) -> (r: bool)
    ensures
        r == is_digit_char(c),
{
    '0' <= c && c <= '9'
}

/// Executable test for [`is_alpha_char`].
pub fn alpha_exec(c: char) -> (r: bool)
    ensures
        r == is_alpha_char(c),
{
    ('a' <= c && c <= 'z') || ('A' <= c && c <= 'Z')
}

/// Executable test for [`is_alnum_char`].
pub fn alnum_exec(c: char) -> (r: bool)
    ensures
        r == is_alnum_char(c),
{
    digit_exec(c) || alpha_exec(c)
}

// ------------------------------------------------------------------
// Errors
// ------------------------------------------------------------------

/// The two lexical error categories.
#[derive(Clone, Copy, Debug, PartialEq, Eq, Structural)]
pub enum ScanErrorTypes {
    UnexpectedCharacter,
    UnterminatedString,
}

/// A positioned lexical error: the category and the 1-based line on which
/// scanning stopped. The offending region itself is not captured.
#[derive(Clone, Copy, Debug, PartialEq, Eq, Structural)]
pub struct ScanError {
    pub line: usize,
    pub kind: ScanErrorTypes,
}

/// The mathematical view of a scan error.
pub struct ScanErrorView {
    pub line: int,
    pub kind: ScanErrorTypes,
}

impl View for ScanError {
    type V = ScanErrorView;

    open spec fn view(&self) -> ScanErrorView {
        ScanErrorView { line: self.line as int, kind: self.kind }
    }
}

impl ScanError {
    /// Builds an error from its line and category, unchanged.
    pub fn new(line: usize, kind: ScanErrorTypes) -> (e: ScanError)
        ensures
            e.line == line,
            e.kind == kind,
    {
        ScanError { line, kind }
    }
}

// ------------------------------------------------------------------
// The scanning specification
// ------------------------------------------------------------------

/// The number of newline characters in `s`.
pub open spec fn newline_count(s: Seq<char>) -> int
    decreases s.len(),
{
    if s.len() == 0 {
        0
    } else {
        newline_count(s.drop_last()) + if s.last() == '\n' {
            1int
        } else {
            0int
        }
    }
}

/// The position of the first `"` at or after `j`, if any.
pub open spec fn find_quote(src: Seq<char>, j: int) -> Option<int>
    decreases src.len() - j,
{
    if j >= src.len() {
        None
    } else if 0 <= j && src[j] == '"' {
        Some(j)
    } else {
        find_quote(src, j + 1)
    }
}

/// The end of the maximal run of digits starting at `j`.
pub open spec fn digits_end(src: Seq<char>, j: int) -> int
    decreases src.len() - j,
{
    if 0 <= j && j < src.len() && is_digit_char(src[j]) {
        digits_end(src, j + 1)
    } else {
        j
    }
}

/// The end of the maximal run of alphanumeric characters starting at `j`.
pub open spec fn alnum_end(src: Seq<char>, j: int) -> int
    decreases src.len() - j,
{
    if 0 <= j && j < src.len() && is_alnum_char(src[j]) {
        alnum_end(src, j + 1)
    } else {
        j
    }
}

/// The position of the next newline at or after `j`, or the end of the
/// input: where a line comment starting before `j` stops being discarded.
pub open spec fn comment_end(src: Seq<char>, j: int) -> int
    decreases src.len() - j,
{
    if 0 <= j && j < src.len() && src[j] != '\n' {
        comment_end(src, j + 1)
    } else {
        j
    }
}

/// The terminal token: kind `EOF`, empty lexeme, no literal.
pub open spec fn eof_token(line: int) -> TokenView {
    TokenView { kind: TokenKind::EOF, lexeme: Seq::empty(), literal: None, line }
}

/// What one dispatch step of the scanner does: emit a token, skip input,
/// or fail. The two `int`s of `Emit` and `Skip` are the next position and
/// the next line counter; the `int` of `Fail` is the stop position.
pub enum ScanStep {
    Emit(TokenView, int, int),
    Skip(int, int),
    Fail(ScanErrorView, int),
}

/// The kind of a token made of the single character `c`, if any.
pub open spec fn single_char_kind(c: char) -> Option<TokenKind> {
    if c == '(' {
        Some(TokenKind::LeftParenthesis)
    } else if c == ')' {
        Some(TokenKind::RightParenthesis)
    } else if c == '{' {
        Some(TokenKind::LeftBrace)
    } else if c == '}' {
        Some(TokenKind::RightBrace)
    } else if c == ',' {
        Some(TokenKind::Comma)
    } else if c == '.' {
        Some(TokenKind::Dot)
    } else if c == '-' {
        Some(TokenKind::Minus)
    } else if c == '+' {
        Some(TokenKind::Plus)
    } else if c == ';' {
        Some(TokenKind::Semicolon)
    } else if c == '*' {
        Some(TokenKind::Star)
    } else {
        None
    }
}

/// The two-character kind for an operator head `c` followed by `=`.
pub open spec fn two_char_kind(c: char) -> TokenKind {
    if c == '!' {
        TokenKind::BangEqual
    } else if c == '=' {
        TokenKind::EqualEqual
    } else if c == '<' {
        TokenKind::LessEqual
    } else {
        TokenKind::GreaterEqual
    }
}

/// The one-character kind for an operator head `c` not followed by `=`.
pub open spec fn one_char_op_kind(c: char) -> TokenKind {
    if c == '!' {
        TokenKind::Bang
    } else if c == '=' {
        TokenKind::Equal
    } else if c == '<' {
        TokenKind::Less
    } else {
        TokenKind::Greater
    }
}

/// One string literal, whose opening quote stands at `i`: the token's
/// literal is the text strictly between the quotes, its line is the line of
/// the closing quote, and each newline inside the literal counts. Without a
/// closing quote the whole scan fails at the final line.
pub open spec fn string_step(src: Seq<char>, i: int, line: int) -> ScanStep {
    match find_quote(src, i + 1) {
        Some(q) => {
            let tline = line + newline_count(src.subrange(i + 1, q));
            ScanStep::Emit(
                TokenView {
                    kind: TokenKind::Str,
                    lexeme: src.subrange(i, q + 1),
                    literal: Some(LitView::Str(src.subrange(i + 1, q))),
                    line: tline,
                },
                q + 1,
                tline,
            )
        },
        None => ScanStep::Fail(
            ScanErrorView {
                line: line + newline_count(src.subrange(i + 1, src.len() as int)),
                kind: ScanErrorTypes::UnterminatedString,
            },
            src.len() as int,
        ),
    }
}

/// One number literal, whose first digit stands at `i`: a maximal digit run,
/// then a fractional part only when a `.` is followed by at least one digit
/// (two characters of look-ahead). The decoded value is the matched text,
/// with `.0` appended when no fractional part was matched.
pub open spec fn number_step(src: Seq<char>, i: int, line: int) -> ScanStep {
    let de = digits_end(src, i);
    let has_frac = de < src.len() && src[de] == '.' && de + 1 < src.len() && is_digit_char(
        src[de + 1],
    );
    let end = if has_frac {
        digits_end(src, de + 1)
    } else {
        de
    };
    let lexeme = src.subrange(i, end);
    let text = if has_frac {
        lexeme
    } else {
        lexeme + ".0"@
    };
    ScanStep::Emit(
        TokenView { kind: TokenKind::Number, lexeme, literal: Some(LitView::Number(text)), line },
        end,
        line,
    )
}

/// One identifier or keyword, whose first (alphabetic) character stands at
/// `i`: a maximal alphanumeric run, classified by the keyword table.
pub open spec fn identifier_step(src: Seq<char>, i: int, line: int) -> ScanStep {
    let end = alnum_end(src, i);
    let lex = src.subrange(i, end);
    ScanStep::Emit(
        TokenView { kind: keyword_kind(lex), lexeme: lex, literal: None, line },
        end,
        line,
    )
}

/// One dispatch step of the scanner at position `i`, discriminated by the
/// character there, exactly as the scanning algorithm consumes it.
pub open spec fn scan_step(src: Seq<char>, i: int, line: int) -> ScanStep {
    let c = src[i];
    match single_char_kind(c) {
        Some(k) => ScanStep::Emit(
            TokenView { kind: k, lexeme: src.subrange(i, i + 1), literal: None, line },
            i + 1,
            line,
        ),
        None => {
            if c == '!' || c == '=' || c == '<' || c == '>' {
                if i + 1 < src.len() && src[i + 1] == '=' {
                    ScanStep::Emit(
                        TokenView {
                            kind: two_char_kind(c),
                            lexeme: src.subrange(i, i + 2),
                            literal: None,
                            line,
                        },
                        i + 2,
                        line,
                    )
                } else {
                    ScanStep::Emit(
                        TokenView {
                            kind: one_char_op_kind(c),
                            lexeme: src.subrange(i, i + 1),
                            literal: None,
                            line,
                        },
                        i + 1,
                        line,
                    )
                }
            } else if c == '/' {
                if i + 1 < src.len() && src[i + 1] == '/' {
                    ScanStep::Skip(comment_end(src, i + 2), line)
                } else {
                    ScanStep::Emit(
                        TokenView {
                            kind: TokenKind::Slash,
                            lexeme: src.subrange(i, i + 1),
                            literal: None,
                            line,
                        },
                        i + 1,
                        line,
                    )
                }
            } else if c == ' ' || c == '\r' || c == '\t' {
                ScanStep::Skip(i + 1, line)
            } else if c == '\n' {
                ScanStep::Skip(i + 1, line + 1)
            } else if c == '"' {
                string_step(src, i, line)
            } else if is_digit_char(c) {
                number_step(src, i, line)
            } else if is_alpha_char(c) {
                identifier_step(src, i, line)
            } else {
                ScanStep::Fail(
                    ScanErrorView { line, kind: ScanErrorTypes::UnexpectedCharacter },
                    i + 1,
                )
            }
        },
    }
}

/// The tokens of the input from position `i` on, with the line counter at
/// `line`: the whole contract of scanning. At the end of the input exactly
/// the terminal marker remains; otherwise one step runs and the rest
/// follows; the first error aborts everything.
pub open spec fn scan_from(src: Seq<char>, i: int, line: int) -> Result<Seq<TokenView>, ScanErrorView>
    decreases src.len() - i,
{
    if i >= src.len() {
        Ok(seq![eof_token(line)])
    } else {
        match scan_step(src, i, line) {
            ScanStep::Emit(t, p, l) => {
                let p2 = if i < p && p <= src.len() {
                    p
                } else {
                    i + 1
                };
                match scan_from(src, p2, l) {
                    Ok(rest) => Ok(seq![t] + rest),
                    Err(e) => Err(e),
                }
            },
            ScanStep::Skip(p, l) => {
                let p2 = if i < p && p <= src.len() {
                    p
                } else {
                    i + 1
                };
                scan_from(src, p2, l)
            },
            ScanStep::Fail(e, _) => Err(e),
        }
    }
}

// ------------------------------------------------------------------
// The scanner
// ------------------------------------------------------------------

/// The scanner's cursor state: the source, the start of the token candidate
/// being matched, the next unread position (in characters), and the 1-based
/// line counter.
pub struct Scanner {
    pub source: String,
    pub start: usize,
    pub current: usize,
    pub line: usize,
}

impl Scanner {
    /// The cursor invariant: positions stay inside the source and the line
    /// counter never outruns the consumed input.
    pub open spec fn wf(self) -> bool {
        &&& self.start <= self.current <= self.source@.len()
        &&& 1 <= self.line
        &&& self.line <= 1 + self.current
        &&& self.source@.len() < usize::MAX
    }

    /// A fresh scanner over `source`, at the beginning of line 1.
    pub fn new(source: String) -> (s: Scanner)
        requires
            source@.len() < usize::MAX,
        ensures
            s.source == source,
            s.start == 0,
            s.current == 0,
            s.line == 1,
            s.wf(),
    {
        Scanner { source, start: 0, current: 0, line: 1 }
    }

    /// Whether the whole source has been consumed.
    pub fn is_at_end(&self) -> (r: bool)
        ensures
            r == (self.current >= self.source@.len()),
    {
        self.current >= self.source.as_str().unicode_len()
    }

    /// Consumes and returns the next character.
    pub fn advance(&mut self) -> (c: char)
        requires
            old(self).current < old(self).source@.len(),
            old(self).source@.len() < usize::MAX,
        ensures
            c == old(self).source@[old(self).current as int],
            final(self).current == old(self).current + 1,
            final(self).source == old(self).source,
            final(self).start == old(self).start,
            final(self).line == old(self).line,
    {
        let c = self.source.as_str().get_char(self.current);
        self.current = self.current + 1;
        c
    }

    /// The next unread character, `'\0'` at the end of the input.
    pub fn peek(&self) -> (c: char)
        ensures
            c == peek_at(self.source@, self.current as int),
    {
        if self.is_at_end() {
            '\0'
        } else {
            self.source.as_str().get_char(self.current)
        }
    }

    /// The character after the next one, `'\0'` past the end of the input.
    pub fn peek_next(&self) -> (c: char)
        requires
            self.wf(),
        ensures
            c == peek_at(self.source@, self.current + 1),
    {
        if self.current + 1 >= self.source.as_str().unicode_len() {
            '\0'
        } else {
            self.source.as_str().get_char(self.current + 1)
        }
    }

    /// Consumes the next character only when it equals `next`.
    pub fn match_next_char(&mut self, next: char) -> (r: bool)
        requires
            old(self).wf(),
        ensures
            r == (old(self).current < old(self).source@.len() && old(self).source@[old(
                self,
            ).current as int] == next),
            final(self).current == old(self).current + if r {
                1int
            } else {
                0int
            },
            final(self).source == old(self).source,
            final(self).start == old(self).start,
            final(self).line == old(self).line,
            final(self).wf(),
    {
        if self.is_at_end() {
            return false;
        }
        if self.source.as_str().get_char(self.current) != next {
            return false;
        }
        self.current = self.current + 1;
        true
    }
}

/// How the result and the new cursor state of one exec scanning step must
/// relate to the specified step.
pub open spec fn step_result_matches(
    r: Result<Option<Token>, ScanError>,
    s: Scanner,
    step: ScanStep,
) -> bool {
    match step {
        ScanStep::Emit(t, p, l) => match r {
            Ok(Some(tok)) => tok@ == t && s.current as int == p && s.line as int == l,
            _ => false,
        },
        ScanStep::Skip(p, l) => match r {
            Ok(None) => s.current as int == p && s.line as int == l,
            _ => false,
        },
        ScanStep::Fail(e, p) => match r {
            Err(err) => err@ == e && s.current as int == p && s.line as int == e.line,
            _ => false,
        },
    }
}

impl Scanner {
    /// Scans the rest of a string literal whose opening quote has just been
    /// consumed, per [`string_step`].
    fn string(&mut self) -> (r: Result<Option<Token>, ScanError>)
        requires
            old(self).wf(),
            old(self).current == old(self).start + 1,
            old(self).start < old(self).source@.len(),
            old(self).source@[old(self).start as int] == '"',
        ensures
            final(self).wf(),
            final(self).source == old(self).source,
            final(self).start == old(self).start,
            step_result_matches(
                r,
                *final(self),
                string_step(old(self).source@, old(self).start as int, old(self).line as int),
            ),
    {
        let ghost self0 = *self;
        let ghost src = self.source@;
        let ghost start0 = self.start as int;
        let ghost line0 = self.line as int;
        proof {
            assert(src.subrange(start0 + 1, start0 + 1) =~= Seq::<char>::empty());
        }
        while self.peek() != '"' && !self.is_at_end()
            invariant
                self.wf(),
                self.source == self0.source,
                self.source@ == src,
                self.start as int == start0,
                start0 + 1 <= self.current as int <= src.len(),
                forall|k: int| start0 + 1 <= k < self.current as int ==> src[k] != '"',
                self.line as int == line0 + newline_count(
                    src.subrange(start0 + 1, self.current as int),
                ),
                line0 >= 1,
            decreases src.len() - self.current,
        {
            let c = self.peek();
            proof {
                lemma_newline_count_extend(src, start0 + 1, self.current as int);
            }
            if c == '\n' {
                self.line = self.line + 1;
            }
            let _ = self.advance();
        }
        proof {
            lemma_find_quote(src, start0 + 1);
        }
        if self.is_at_end() {
            return Err(ScanError::new(self.line, ScanErrorTypes::UnterminatedString));
        }
        let _ = self.advance();
        let value = self.source.as_str().substring_char(self.start + 1, self.current - 1).to_owned();
        let lexeme = self.source.as_str().substring_char(self.start, self.current).to_owned();
        Ok(Some(Token::new(TokenKind::Str, lexeme, Some(Lit { kind: LitKind::Str(value) }), self.line)))
    }

    /// Scans the rest of a number literal whose first digit has just been
    /// consumed, per [`number_step`].
    fn number(&mut self) -> (r: Result<Option<Token>, ScanError>)
        requires
            old(self).wf(),
            old(self).current == old(self).start + 1,
            old(self).start < old(self).source@.len(),
            is_digit_char(old(self).source@[old(self).start as int]),
        ensures
            final(self).wf(),
            final(self).source == old(self).source,
            final(self).start == old(self).start,
            step_result_matches(
                r,
                *final(self),
                number_step(old(self).source@, old(self).start as int, old(self).line as int),
            ),
    {
        let ghost self0 = *self;
        let ghost src = self.source@;
        let ghost start0 = self.start as int;
        let ghost line0 = self.line as int;
        while digit_exec(self.peek())
            invariant
                self.wf(),
                self.source == self0.source,
                self.source@ == src,
                self.start as int == start0,
                self.line as int == line0,
                start0 < self.current as int <= src.len(),
                digits_end(src, start0) == digits_end(src, self.current as int),
            decreases src.len() - self.current,
        {
            let _ = self.advance();
        }
        let ghost de = digits_end(src, start0);
        proof {
            assert(de == self.current as int);
        }
        let mut has_frac: bool = false;
        if self.peek() == '.' && digit_exec(self.peek_next()) {
            has_frac = true;
            let _ = self.advance();
            while digit_exec(self.peek())
                invariant
                    self.wf(),
                    self.source == self0.source,
                    self.source@ == src,
                    self.start as int == start0,
                    self.line as int == line0,
                    de + 1 <= self.current as int <= src.len(),
                    digits_end(src, de + 1) == digits_end(src, self.current as int),
                decreases src.len() - self.current,
            {
                let _ = self.advance();
            }
        }
        let lexeme = self.source.as_str().substring_char(self.start, self.current).to_owned();
        let text = if has_frac {
            lexeme.clone()
        } else {
            let mut t = lexeme.clone();
            t.append(".0");
            t
        };
        Ok(Some(Token::new(TokenKind::Number, lexeme, Some(Lit { kind: LitKind::Number(text) }), self.line)))
    }

    /// Scans the rest of an identifier or keyword whose first character has
    /// just been consumed, per [`identifier_step`].
    fn identifier(&mut self) -> (r: Result<Option<Token>, ScanError>)
        requires
            old(self).wf(),
            old(self).current == old(self).start + 1,
            old(self).start < old(self).source@.len(),
            is_alpha_char(old(self).source@[old(self).start as int]),
        ensures
            final(self).wf(),
            final(self).source == old(self).source,
            final(self).start == old(self).start,
            step_result_matches(
                r,
                *final(self),
                identifier_step(old(self).source@, old(self).start as int, old(self).line as int),
            ),
    {
        let ghost self0 = *self;
        let ghost src = self.source@;
        let ghost start0 = self.start as int;
        let ghost line0 = self.line as int;
        while alnum_exec(self.peek())
            invariant
                self.wf(),
                self.source == self0.source,
                self.source@ == src,
                self.start as int == start0,
                self.line as int == line0,
                start0 < self.current as int <= src.len(),
                alnum_end(src, start0) == alnum_end(src, self.current as int),
            decreases src.len() - self.current,
        {
            let _ = self.advance();
        }
        let lexeme = self.source.as_str().substring_char(self.start, self.current).to_owned();
        let kind = crate::tokens::lookup_keyword(lexeme.as_str());
        Ok(Some(Token::new(kind, lexeme, None, self.line)))
    }
}

/// Executable table for [`single_char_kind`].
fn single_token_kind(c: char) -> (k: Option<TokenKind>)
    ensures
        k == single_char_kind(c),
{
    if c == '(' {
        Some(TokenKind::LeftParenthesis)
    } else if c == ')' {
        Some(TokenKind::RightParenthesis)
    } else if c == '{' {
        Some(TokenKind::LeftBrace)
    } else if c == '}' {
        Some(TokenKind::RightBrace)
    } else if c == ',' {
        Some(TokenKind::Comma)
    } else if c == '.' {
        Some(TokenKind::Dot)
    } else if c == '-' {
        Some(TokenKind::Minus)
    } else if c == '+' {
        Some(TokenKind::Plus)
    } else if c == ';' {
        Some(TokenKind::Semicolon)
    } else if c == '*' {
        Some(TokenKind::Star)
    } else {
        None
    }
}

/// How the result of a whole scan must relate to [`scan_from`].
pub open spec fn scan_result_matches(
    r: Result<Vec<Token>, ScanError>,
    src: Seq<char>,
    i: int,
    line: int,
) -> bool {
    match r {
        Ok(ts) => scan_from(src, i, line) == Ok::<Seq<TokenView>, ScanErrorView>(
            ts@.map_values(|t: Token| t@),
        ),
        Err(e) => scan_from(src, i, line) == Err::<Seq<TokenView>, ScanErrorView>(e@),
    }
}

impl Scanner {
    /// The source text of the token candidate, from `start` to `current`.
    fn lexeme_text(&self) -> (s: String)
        requires
            self.start <= self.current,
            self.current as int <= self.source@.len(),
        ensures
            s@ == self.source@.subrange(self.start as int, self.current as int),
    {
        self.source.as_str().substring_char(self.start, self.current).to_owned()
    }

    /// Consumes one token candidate, per [`scan_step`]: whitespace and
    /// comments produce no token, everything else produces one token or
    /// fails the scan. Afterwards `start` has caught up with `current`.
    fn scan_token(&mut self) -> (r: Result<Option<Token>, ScanError>)
        requires
            old(self).wf(),
            old(self).start == old(self).current,
            old(self).current < old(self).source@.len(),
        ensures
            final(self).wf(),
            final(self).source == old(self).source,
            final(self).start == final(self).current,
            step_result_matches(
                r,
                *final(self),
                scan_step(old(self).source@, old(self).current as int, old(self).line as int),
            ),
    {
        let ghost self0 = *self;
        let ghost src = self.source@;
        let ghost i = self.current as int;
        let ghost line0 = self.line as int;
        let c = self.advance();
        let res: Result<Option<Token>, ScanError> = match single_token_kind(c) {
            Some(k) => {
                let text = self.lexeme_text();
                Ok(Some(Token::new(k, text, None, self.line)))
            },
            None => {
                if c == '!' || c == '=' || c == '<' || c == '>' {
                    let two = self.match_next_char('=');
                    let k: TokenKind = if c == '!' {
                        if two {
                            TokenKind::BangEqual
                        } else {
                            TokenKind::Bang
                        }
                    } else if c == '=' {
                        if two {
                            TokenKind::EqualEqual
                        } else {
                            TokenKind::Equal
                        }
                    } else if c == '<' {
                        if two {
                            TokenKind::LessEqual
                        } else {
                            TokenKind::Less
                        }
                    } else {
                        if two {
                            TokenKind::GreaterEqual
                        } else {
                            TokenKind::Greater
                        }
                    };
                    let text = self.lexeme_text();
                    Ok(Some(Token::new(k, text, None, self.line)))
                } else if c == '/' {
                    if self.match_next_char('/') {
                        while self.peek() != '\n' && !self.is_at_end()
                            invariant
                                self.wf(),
                                self.source == self0.source,
                                self.source@ == src,
                                self.start as int == i,
                                self.line as int == line0,
                                i + 2 <= self.current as int <= src.len(),
                                comment_end(src, i + 2) == comment_end(
                                    src,
                                    self.current as int,
                                ),
                            decreases src.len() - self.current,
                        {
                            let _ = self.advance();
                        }
                        Ok(None)
                    } else {
                        let text = self.lexeme_text();
                        Ok(Some(Token::new(TokenKind::Slash, text, None, self.line)))
                    }
                } else if c == ' ' || c == '\r' || c == '\t' {
                    Ok(None)
                } else if c == '\n' {
                    self.line = self.line + 1;
                    Ok(None)
                } else if c == '"' {
                    self.string()
                } else if digit_exec(c) {
                    self.number()
                } else if alpha_exec(c) {
                    self.identifier()
                } else {
                    Err(ScanError::new(self.line, ScanErrorTypes::UnexpectedCharacter))
                }
            },
        };
        self.start = self.current;
        res
    }

    /// Scans the whole remaining source in one pass: on success the ordered
    /// token sequence, terminated by exactly one end-of-input marker; on the
    /// first lexical error that error alone, per [`scan_from`].
    pub fn scan_tokens(&mut self) -> (r: Result<Vec<Token>, ScanError>)
        requires
            old(self).wf(),
            old(self).start == old(self).current,
        ensures
            final(self).wf(),
            final(self).source == old(self).source,
            scan_result_matches(
                r,
                old(self).source@,
                old(self).current as int,
                old(self).line as int,
            ),
            r is Ok ==> final(self).current as int == old(self).source@.len(),
    {
        let ghost src = self.source@;
        let ghost c0 = self.current as int;
        let ghost l0 = self.line as int;
        let mut tokens: Vec<Token> = Vec::new();
        proof {
            assert(tokens@.map_values(|t: Token| t@) =~= Seq::<TokenView>::empty());
        }
        while !self.is_at_end()
            invariant
                self.wf(),
                self.source == old(self).source,
                self.source@ == src,
                src == old(self).source@,
                c0 == old(self).current as int,
                l0 == old(self).line as int,
                self.start == self.current,
                match scan_from(src, self.current as int, self.line as int) {
                    Ok(rest) => scan_from(src, c0, l0) == Ok::<Seq<TokenView>, ScanErrorView>(
                        tokens@.map_values(|t: Token| t@) + rest,
                    ),
                    Err(e) => scan_from(src, c0, l0) == Err::<Seq<TokenView>, ScanErrorView>(e),
                },
            decreases src.len() - self.current,
        {
            let ghost cur = self.current as int;
            let ghost ln = self.line as int;
            let ghost toks_before = tokens@;
            proof {
                lemma_scan_step_bounds(src, cur, ln);
            }
            match self.scan_token() {
                Ok(Some(t)) => {
                    tokens.push(t);
                    proof {
                        assert(tokens@.map_values(|t: Token| t@) =~= toks_before.map_values(
                            |t: Token| t@,
                        ).push(tokens@.last()@));
                        if let ScanStep::Emit(tv, p, l) = scan_step(src, cur, ln) {
                            if let Ok(rest2) = scan_from(src, p, l) {
                                assert(toks_before.map_values(|t: Token| t@) + (seq![tv] + rest2)
                                    =~= tokens@.map_values(|t: Token| t@) + rest2);
                            }
                        }
                    }
                },
                Ok(None) => {},
                Err(e) => {
                    return Err(e);
                },
            }
        }
        let ghost eline = self.line as int;
        proof {
            assert(scan_from(src, self.current as int, eline) == Ok::<
                Seq<TokenView>,
                ScanErrorView,
            >(seq![eof_token(eline)]));
        }
        let ghost toks_before = tokens@;
        tokens.push(Token::new(TokenKind::EOF, String::new(), None, self.line));
        proof {
            assert(tokens@.last()@ == eof_token(eline));
            assert(tokens@.map_values(|t: Token| t@) =~= toks_before.map_values(|t: Token| t@)
                + seq![eof_token(eline)]);
        }
        Ok(tokens)
    }
}

/// The character of `src` at `i`, `'\0'` outside the bounds.
pub open spec fn peek_at(src: Seq<char>, i: int) -> char {
    if 0 <= i < src.len() {
        src[i]
    } else {
        '\0'
    }
}

// ------------------------------------------------------------------
// Facts about the specification helpers
// ------------------------------------------------------------------

/// Extending a counted range by one character adds one exactly for a newline.
pub proof fn lemma_newline_count_extend(src: Seq<char>, a: int, j: int)
    requires
        0 <= a <= j < src.len(),
    ensures
        newline_count(src.subrange(a, j + 1)) == newline_count(src.subrange(a, j)) + if src[j]
            == '\n' {
            1int
        } else {
            0int
        },
{
    assert(src.subrange(a, j + 1).drop_last() =~= src.subrange(a, j));
    assert(src.subrange(a, j + 1).last() == src[j]);
}

/// What [`find_quote`] returns: the first quote at or after `j`, if any.
pub proof fn lemma_find_quote(src: Seq<char>, j: int)
    requires
        0 <= j,
    ensures
        match find_quote(src, j) {
            Some(q) => j <= q < src.len() && src[q] == '"' && (forall|k: int|
                j <= k < q ==> src[k] != '"'),
            None => forall|k: int| j <= k < src.len() ==> src[k] != '"',
        },
    decreases src.len() - j,
{
    if j < src.len() && src[j] != '"' {
        lemma_find_quote(src, j + 1);
    }
}

/// What [`digits_end`] returns: the end of the maximal digit run from `j`.
pub proof fn lemma_digits_end(src: Seq<char>, j: int)
    requires
        0 <= j <= src.len(),
    ensures
        j <= digits_end(src, j) <= src.len(),
        forall|k: int| j <= k < digits_end(src, j) ==> is_digit_char(src[k]),
        digits_end(src, j) == src.len() || !is_digit_char(src[digits_end(src, j)]),
    decreases src.len() - j,
{
    if j < src.len() && is_digit_char(src[j]) {
        lemma_digits_end(src, j + 1);
    }
}

/// What [`alnum_end`] returns: the end of the maximal alphanumeric run.
pub proof fn lemma_alnum_end(src: Seq<char>, j: int)
    requires
        0 <= j <= src.len(),
    ensures
        j <= alnum_end(src, j) <= src.len(),
        forall|k: int| j <= k < alnum_end(src, j) ==> is_alnum_char(src[k]),
        alnum_end(src, j) == src.len() || !is_alnum_char(src[alnum_end(src, j)]),
    decreases src.len() - j,
{
    if j < src.len() && is_alnum_char(src[j]) {
        lemma_alnum_end(src, j + 1);
    }
}

/// What [`comment_end`] returns: the next newline position, or the end.
pub proof fn lemma_comment_end(src: Seq<char>, j: int)
    requires
        0 <= j <= src.len(),
    ensures
        j <= comment_end(src, j) <= src.len(),
        forall|k: int| j <= k < comment_end(src, j) ==> src[k] != '\n',
        comment_end(src, j) == src.len() || src[comment_end(src, j)] == '\n',
    decreases src.len() - j,
{
    if j < src.len() && src[j] != '\n' {
        lemma_comment_end(src, j + 1);
    }
}

/// Every dispatch step stops strictly after its start and inside the input.
pub proof fn lemma_scan_step_bounds(src: Seq<char>, i: int, line: int)
    requires
        0 <= i < src.len(),
    ensures
        match scan_step(src, i, line) {
            ScanStep::Emit(t, p, l) => i < p <= src.len(),
            ScanStep::Skip(p, l) => i < p <= src.len(),
            ScanStep::Fail(e, p) => i < p <= src.len(),
        },
{
    let c = src[i];
    if c == '"' {
        lemma_find_quote(src, i + 1);
    } else if is_digit_char(c) {
        lemma_digits_end(src, i + 1);
        assert(digits_end(src, i) == digits_end(src, i + 1));
        let de = digits_end(src, i);
        if de < src.len() && src[de] == '.' && de + 1 < src.len() && is_digit_char(src[de + 1]) {
            lemma_digits_end(src, de + 2);
            assert(digits_end(src, de + 1) == digits_end(src, de + 2));
        }
    } else if is_alpha_char(c) {
        lemma_alnum_end(src, i + 1);
        assert(alnum_end(src, i) == alnum_end(src, i + 1));
    } else if c == '/' && i + 1 < src.len() && src[i + 1] == '/' {
        lemma_comment_end(src, i + 2);
    }
}

} // verus!
