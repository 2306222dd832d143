//! The lexer: turns source text into a stream of tokens with one token of
//! lookahead.
//!
//! The token grammar is specified by the spec functions below: `skip_trivia`
//! says which text is silently discarded (whitespace and `//` line comments),
//! `scan_token` says which token pattern matches at a position (longest match,
//! with the keywords `let` and `def` taking precedence over identifiers), and
//! `lex_from` folds both into the full token stream of a source string.

use vstd::prelude::*;
use vstd::string::StrSliceExecFns;

use crate::ast::{lex_error_v, ErrV, ParseError};

verus! {

/// A lexical category. `String` and `Char` are quoted literals; `Let` and
/// `Def` are reserved keywords; `Identifier` is `[a-zA-Z_][a-zA-Z0-9_]*`;
/// `Number` is `[0-9]+`; the rest are fixed punctuation.
#[derive(Clone, Copy, Debug, PartialEq, Eq, Structural)]
pub enum Token {
    String,
    Char,
    Let,
    Def,
    DoubleColon,
    Colon,
    SemiColon,
    Equals,
    Arrow,
    Dot,
    Comma,
    Plus,
    Minus,
    Asterisk,
    Slash,
    Percent,
    Caret,
    Ampersand,
    Bar,
    ExclamationPoint,
    LeftParen,
    RightParen,
    LeftBracket,
    RightBracket,
    LeftCurlyBrace,
    RightCurlyBrace,
    LeftAngleBracket,
    RightAngleBracket,
    Identifier,
    Number,
}

/// Inline whitespace skipped between tokens: space, tab, newline, form feed.
pub open spec fn is_ws_char(c: char) -> bool {
    c == ' ' || c == '\t' || c == '\n' || c == '\u{c}'
}

/// A character that may start an identifier.
pub open spec fn is_ident_start_char(c: char) -> bool {
    ('a' as u32 <= c as u32 && c as u32 <= 'z' as u32) || ('A' as u32 <= c as u32 && c as u32
        <= 'Z' as u32) || c == '_'
}

/// A decimal digit.
pub open spec fn is_digit_char(c: char) -> bool {
    '0' as u32 <= c as u32 && c as u32 <= '9' as u32
}

/// A character that may continue an identifier.
pub open spec fn is_ident_char(c: char) -> bool {
    is_ident_start_char(c) || is_digit_char(c)
}

/// A `//` line comment starts at position `i`.
pub open spec fn is_comment_start(s: Seq<char>, i: int) -> bool {
    i + 1 < s.len() && s[i] == '/' && s[i + 1] == '/'
}

/// First position at or after `i` that holds neither whitespace nor a line
/// comment; `s.len()` if only trivia remains.
pub open spec fn skip_trivia(s: Seq<char>, i: int) -> int
    decreases s.len() - i,
{
    if i < 0 || i >= s.len() {
        i
    } else if is_ws_char(s[i]) {
        skip_trivia(s, i + 1)
    } else if is_comment_start(s, i) {
        skip_comment(s, i + 2)
    } else {
        i
    }
}

/// Position after the body of a line comment entered at `i`: scans up to the
/// next newline (which `skip_trivia` then consumes as whitespace) or to the
/// end of the text.
pub open spec fn skip_comment(s: Seq<char>, i: int) -> int
    decreases s.len() - i + 1,
{
    if i < 0 || i >= s.len() {
        i
    } else if s[i] == '\n' {
        skip_trivia(s, i)
    } else {
        skip_comment(s, i + 1)
    }
}

/// End of the identifier-character run starting at `i`.
pub open spec fn scan_while_ident(s: Seq<char>, i: int) -> int
    decreases s.len() - i,
{
    if i < 0 || i >= s.len() {
        i
    } else if is_ident_char(s[i]) {
        scan_while_ident(s, i + 1)
    } else {
        i
    }
}

/// End of the digit run starting at `i`.
pub open spec fn scan_while_digit(s: Seq<char>, i: int) -> int
    decreases s.len() - i,
{
    if i < 0 || i >= s.len() {
        i
    } else if is_digit_char(s[i]) {
        scan_while_digit(s, i + 1)
    } else {
        i
    }
}

/// Position of the first occurrence of `d` at or after `i`, or `s.len()` if
/// there is none.
pub open spec fn find_delim(s: Seq<char>, i: int, d: char) -> int
    decreases s.len() - i,
{
    if i < 0 || i >= s.len() {
        s.len() as int
    } else if s[i] == d {
        i
    } else {
        find_delim(s, i + 1, d)
    }
}

/// The identifier run `[i, e)` spells the keyword `let`.
pub open spec fn is_let_word(s: Seq<char>, i: int, e: int) -> bool {
    e - i == 3 && s[i] == 'l' && s[i + 1] == 'e' && s[i + 2] == 't'
}

/// The identifier run `[i, e)` spells the keyword `def`.
pub open spec fn is_def_word(s: Seq<char>, i: int, e: int) -> bool {
    e - i == 3 && s[i] == 'd' && s[i + 1] == 'e' && s[i + 2] == 'f'
}

/// The token pattern matching at position `i` of `s`, together with its end
/// position, or `None` when no pattern matches there. Expects to be consulted
/// only at non-trivia positions; a comment start matches no token.
pub open spec fn scan_token(s: Seq<char>, i: int) -> Option<(Token, int)> {
    if i < 0 || i >= s.len() {
        None
    } else {
        let c = s[i];
        if is_ident_start_char(c) {
            let e = scan_while_ident(s, i + 1);
            if is_let_word(s, i, e) {
                Some((Token::Let, e))
            } else if is_def_word(s, i, e) {
                Some((Token::Def, e))
            } else {
                Some((Token::Identifier, e))
            }
        } else if is_digit_char(c) {
            Some((Token::Number, scan_while_digit(s, i + 1)))
        } else if c == '"' {
            let e = find_delim(s, i + 1, '"');
            if e < s.len() {
                Some((Token::String, e + 1))
            } else {
                None
            }
        } else if c == '\'' {
            let e = find_delim(s, i + 1, '\'');
            if e < s.len() {
                Some((Token::Char, e + 1))
            } else {
                None
            }
        } else if c == ':' {
            if i + 1 < s.len() && s[i + 1] == ':' {
                Some((Token::DoubleColon, i + 2))
            } else {
                Some((Token::Colon, i + 1))
            }
        } else if c == '-' {
            if i + 1 < s.len() && s[i + 1] == '>' {
                Some((Token::Arrow, i + 2))
            } else {
                Some((Token::Minus, i + 1))
            }
        } else if c == '/' {
            if i + 1 < s.len() && s[i + 1] == '/' {
                None
            } else {
                Some((Token::Slash, i + 1))
            }
        } else if c == ';' {
            Some((Token::SemiColon, i + 1))
        } else if c == '=' {
            Some((Token::Equals, i + 1))
        } else if c == '.' {
            Some((Token::Dot, i + 1))
        } else if c == ',' {
            Some((Token::Comma, i + 1))
        } else if c == '+' {
            Some((Token::Plus, i + 1))
        } else if c == '*' {
            Some((Token::Asterisk, i + 1))
        } else if c == '%' {
            Some((Token::Percent, i + 1))
        } else if c == '^' {
            Some((Token::Caret, i + 1))
        } else if c == '&' {
            Some((Token::Ampersand, i + 1))
        } else if c == '|' {
            Some((Token::Bar, i + 1))
        } else if c == '!' {
            Some((Token::ExclamationPoint, i + 1))
        } else if c == '(' {
            Some((Token::LeftParen, i + 1))
        } else if c == ')' {
            Some((Token::RightParen, i + 1))
        } else if c == '[' {
            Some((Token::LeftBracket, i + 1))
        } else if c == ']' {
            Some((Token::RightBracket, i + 1))
        } else if c == '{' {
            Some((Token::LeftCurlyBrace, i + 1))
        } else if c == '}' {
            Some((Token::RightCurlyBrace, i + 1))
        } else if c == '<' {
            Some((Token::LeftAngleBracket, i + 1))
        } else if c == '>' {
            Some((Token::RightAngleBracket, i + 1))
        } else {
            None
        }
    }
}

/// One token of the abstract stream: its category and its literal text.
#[verifier::ext_equal]
pub struct TokenV {
    pub kind: Token,
    pub text: Seq<char>,
}

/// The tokens of a suffix of the source, and the unmatched slice if lexing
/// the suffix fails after them.
#[verifier::ext_equal]
pub struct LexTail {
    pub toks: Seq<TokenV>,
    pub err: Option<Seq<char>>,
}

/// Tokenizes `s` from position `i` on: the tokens in order, and `Some`
/// unmatched slice if a position is reached where no pattern matches.
pub open spec fn lex_from(s: Seq<char>, i: int) -> LexTail
    decreases s.len() - i,
{
    let j = skip_trivia(s, i);
    if !(i <= j && j < s.len()) {
        LexTail { toks: Seq::empty(), err: None }
    } else {
        match scan_token(s, j) {
            None => LexTail { toks: Seq::empty(), err: Some(seq![s[j]]) },
            Some((t, e)) => {
                if j < e && e <= s.len() {
                    let rest = lex_from(s, e);
                    LexTail {
                        toks: seq![TokenV { kind: t, text: s.subrange(j, e) }] + rest.toks,
                        err: rest.err,
                    }
                } else {
                    LexTail { toks: Seq::empty(), err: None }
                }
            },
        }
    }
}

/// The abstract state of a `Lexer`: the unconsumed tokens (the peeked one
/// first), whether lexing fails after them, and the text of the most recently
/// consumed token.
#[verifier::ext_equal]
pub struct StreamV {
    pub toks: Seq<TokenV>,
    pub err: Option<Seq<char>>,
    pub cur: Seq<char>,
}

/// The stream a fresh lexer over `s` presents.
pub open spec fn stream_of(s: Seq<char>) -> StreamV {
    let t = lex_from(s, 0);
    StreamV { toks: t.toks, err: t.err, cur: Seq::empty() }
}

/// `skip_trivia` stays within bounds, lands on a position that starts no
/// trivia, and is idempotent there.
pub proof fn lemma_skip_trivia_bounds(s: Seq<char>, i: int)
    requires
        0 <= i <= s.len(),
    ensures
        i <= skip_trivia(s, i) <= s.len(),
        skip_trivia(s, skip_trivia(s, i)) == skip_trivia(s, i),
    decreases s.len() - i,
{
    if i < s.len() {
        if is_ws_char(s[i]) {
            lemma_skip_trivia_bounds(s, i + 1);
        } else if is_comment_start(s, i) {
            lemma_skip_comment_bounds(s, i + 2);
        }
    }
}

/// Bounds and idempotence for the comment-scanning half of `skip_trivia`.
pub proof fn lemma_skip_comment_bounds(s: Seq<char>, i: int)
    requires
        0 <= i <= s.len(),
    ensures
        i <= skip_comment(s, i) <= s.len(),
        skip_trivia(s, skip_comment(s, i)) == skip_comment(s, i),
    decreases s.len() - i + 1,
{
    if i < s.len() {
        if s[i] == '\n' {
            lemma_skip_trivia_bounds(s, i);
        } else {
            lemma_skip_comment_bounds(s, i + 1);
        }
    }
}

/// Bounds of the digit run scanner.
pub proof fn lemma_scan_while_digit_bounds(s: Seq<char>, i: int)
    requires
        0 <= i <= s.len(),
    ensures
        i <= scan_while_digit(s, i) <= s.len(),
    decreases s.len() - i,
{
    if i < s.len() && is_digit_char(s[i]) {
        lemma_scan_while_digit_bounds(s, i + 1);
    }
}

/// The category of the next unconsumed token, `None` at end of input.
pub open spec fn peek_kind(st: StreamV) -> Option<Token> {
    if st.toks.len() == 0 {
        None
    } else {
        Some(st.toks[0].kind)
    }
}

/// The stream after consuming its first token.
pub open spec fn advance_stream(st: StreamV) -> StreamV {
    StreamV { toks: st.toks.drop_first(), err: st.err, cur: st.toks[0].text }
}

/// What one `Lexer::next` call does to the abstract stream: at end of input
/// it returns `None` and clears the current text; when the position after the
/// single remaining token fails to lex, it reports that lexical error;
/// otherwise it consumes and returns the first token.
pub open spec fn sp_advance(st: StreamV) -> Result<(Option<Token>, StreamV), ErrV> {
    if st.toks.len() == 0 {
        Ok((None, StreamV { toks: st.toks, err: st.err, cur: Seq::empty() }))
    } else if st.toks.len() == 1 {
        match st.err {
            Some(sl) => Err(lex_error_v(sl)),
            None => Ok((Some(st.toks[0].kind), advance_stream(st))),
        }
    } else {
        Ok((Some(st.toks[0].kind), advance_stream(st)))
    }
}

/// Exec mirror of `is_ident_start_char`.
fn is_ident_start_x(c: char) -> (r: bool)
    ensures
        r == is_ident_start_char(c),
{
    ('a' as u32 <= c as u32 && c as u32 <= 'z' as u32) || ('A' as u32 <= c as u32 && c as u32
        <= 'Z' as u32) || c == '_'
}

/// Exec mirror of `is_digit_char`.
fn is_digit_x(c: char) -> (r: bool)
    ensures
        r == is_digit_char(c),
{
    '0' as u32 <= c as u32 && c as u32 <= '9' as u32
}

/// Exec mirror of `is_ident_char`.
fn is_ident_x(c: char) -> (r: bool)
    ensures
        r == is_ident_char(c),
{
    is_ident_start_x(c) || is_digit_x(c)
}

/// Advances over whitespace and line comments, landing where `skip_trivia`
/// lands.
fn skip_trivia_x(s: &str, n: usize, i: usize) -> (j: usize)
    requires
        n == s@.len(),
        i <= n,
    ensures
        j as int == skip_trivia(s@, i as int),
        skip_trivia(s@, j as int) == j as int,
        i <= j <= n,
{
    let mut j = i;
    loop
        invariant
            n == s@.len(),
            i <= j <= n,
            skip_trivia(s@, i as int) == skip_trivia(s@, j as int),
        decreases n - j,
    {
        if j >= n {
            return j;
        }
        let c = s.get_char(j);
        if c == ' ' || c == '\t' || c == '\n' || c == '\u{c}' {
            j = j + 1;
        } else if c == '/' && j + 1 < n && s.get_char(j + 1) == '/' {
            j = j + 2;
            let ghost j0 = j as int;
            loop
                invariant
                    n == s@.len(),
                    0 <= j0 <= j <= n,
                    skip_trivia(s@, i as int) == skip_comment(s@, j as int),
                ensures
                    j0 <= j <= n,
                    skip_trivia(s@, i as int) == skip_trivia(s@, j as int),
                decreases n - j,
            {
                if j >= n {
                    return j;
                }
                if s.get_char(j) == '\n' {
                    break;
                }
                j = j + 1;
            }
        } else {
            return j;
        }
    }
}

/// Scans one token at position `j`, returning exactly what `scan_token`
/// specifies there.
fn scan_token_x(s: &str, n: usize, j: usize) -> (r: Option<(Token, usize)>)
    requires
        n == s@.len(),
        j < n,
    ensures
        match r {
            Some(p) => scan_token(s@, j as int) == Some((p.0, p.1 as int)) && j < p.1 <= n,
            None => scan_token(s@, j as int) is None,
        },
{
    let c = s.get_char(j);
    if is_ident_start_x(c) {
        let mut e = j + 1;
        while e < n && is_ident_x(s.get_char(e))
            invariant
                n == s@.len(),
                j + 1 <= e <= n,
                scan_while_ident(s@, (j + 1) as int) == scan_while_ident(s@, e as int),
            decreases n - e,
        {
            e = e + 1;
        }
        if e - j == 3 && s.get_char(j) == 'l' && s.get_char(j + 1) == 'e' && s.get_char(j + 2)
            == 't' {
            Some((Token::Let, e))
        } else if e - j == 3 && s.get_char(j) == 'd' && s.get_char(j + 1) == 'e' && s.get_char(
            j + 2,
        ) == 'f' {
            Some((Token::Def, e))
        } else {
            Some((Token::Identifier, e))
        }
    } else if is_digit_x(c) {
        let mut e = j + 1;
        while e < n && is_digit_x(s.get_char(e))
            invariant
                n == s@.len(),
                j + 1 <= e <= n,
                scan_while_digit(s@, (j + 1) as int) == scan_while_digit(s@, e as int),
            decreases n - e,
        {
            e = e + 1;
        }
        Some((Token::Number, e))
    } else if c == '"' || c == '\'' {
        let mut e = j + 1;
        while e < n && s.get_char(e) != c
            invariant
                n == s@.len(),
                j + 1 <= e <= n,
                find_delim(s@, (j + 1) as int, c) == find_delim(s@, e as int, c),
            decreases n - e,
        {
            e = e + 1;
        }
        if e < n {
            if c == '"' {
                Some((Token::String, e + 1))
            } else {
                Some((Token::Char, e + 1))
            }
        } else {
            None
        }
    } else if c == ':' {
        if j + 1 < n && s.get_char(j + 1) == ':' {
            Some((Token::DoubleColon, j + 2))
        } else {
            Some((Token::Colon, j + 1))
        }
    } else if c == '-' {
        if j + 1 < n && s.get_char(j + 1) == '>' {
            Some((Token::Arrow, j + 2))
        } else {
            Some((Token::Minus, j + 1))
        }
    } else if c == '/' {
        if j + 1 < n && s.get_char(j + 1) == '/' {
            None
        } else {
            Some((Token::Slash, j + 1))
        }
    } else if c == ';' {
        Some((Token::SemiColon, j + 1))
    } else if c == '=' {
        Some((Token::Equals, j + 1))
    } else if c == '.' {
        Some((Token::Dot, j + 1))
    } else if c == ',' {
        Some((Token::Comma, j + 1))
    } else if c == '+' {
        Some((Token::Plus, j + 1))
    } else if c == '*' {
        Some((Token::Asterisk, j + 1))
    } else if c == '%' {
        Some((Token::Percent, j + 1))
    } else if c == '^' {
        Some((Token::Caret, j + 1))
    } else if c == '&' {
        Some((Token::Ampersand, j + 1))
    } else if c == '|' {
        Some((Token::Bar, j + 1))
    } else if c == '!' {
        Some((Token::ExclamationPoint, j + 1))
    } else if c == '(' {
        Some((Token::LeftParen, j + 1))
    } else if c == ')' {
        Some((Token::RightParen, j + 1))
    } else if c == '[' {
        Some((Token::LeftBracket, j + 1))
    } else if c == ']' {
        Some((Token::RightBracket, j + 1))
    } else if c == '{' {
        Some((Token::LeftCurlyBrace, j + 1))
    } else if c == '}' {
        Some((Token::RightCurlyBrace, j + 1))
    } else if c == '<' {
        Some((Token::LeftAngleBracket, j + 1))
    } else if c == '>' {
        Some((Token::RightAngleBracket, j + 1))
    } else {
        None
    }
}

/// The lexer: a cursor into the source text plus one token of lookahead.
pub struct Lexer<'s> {
    src: &'s str,
    n: usize,
    pos: usize,
    peeked: Option<Token>,
    peek_start: usize,
    peek_end: usize,
    cur_text: String,
}

impl<'s> View for Lexer<'s> {
    type V = StreamV;

    closed spec fn view(&self) -> StreamV {
        let tail = lex_from(self.src@, self.pos as int);
        StreamV {
            toks: match self.peeked {
                None => tail.toks,
                Some(t) => seq![
                    TokenV {
                        kind: t,
                        text: self.src@.subrange(self.peek_start as int, self.peek_end as int),
                    },
                ] + tail.toks,
            },
            err: tail.err,
            cur: self.cur_text@,
        }
    }
}

impl<'s> Lexer<'s> {
    /// The cursor and lookahead fields agree with the token grammar.
    pub closed spec fn wf(&self) -> bool {
        &&& self.n == self.src@.len()
        &&& self.pos <= self.n
        &&& match self.peeked {
            None => skip_trivia(self.src@, self.pos as int) == self.n,
            Some(t) => self.peek_start < self.peek_end <= self.n && self.pos == self.peek_end
                && scan_token(self.src@, self.peek_start as int) == Some(
                (t, self.peek_end as int),
            ),
        }
    }

    /// Builds a lexer over `source` with the first token pre-fetched. Fails
    /// exactly when the very first scan step matches no token pattern, and
    /// then carries the unmatched slice.
    pub fn new(source: &'s str) -> (r: Result<Self, ParseError>)
        ensures
            ({
                let st = stream_of(source@);
                &&& r is Err <==> (st.toks.len() == 0 && st.err is Some)
                &&& (r matches Ok(l) ==> l.wf() && l@ == st)
                &&& (r matches Err(e) ==> st.err matches Some(sl) && e@ == lex_error_v(sl))
            }),
    {
        let n = source.unicode_len();
        let j = skip_trivia_x(source, n, 0);
        if j == n {
            let l = Lexer {
                src: source,
                n,
                pos: j,
                peeked: None,
                peek_start: 0,
                peek_end: 0,
                cur_text: String::new(),
            };
            proof {
                assert(l@ =~= stream_of(source@));
            }
            Ok(l)
        } else {
            match scan_token_x(source, n, j) {
                Some((t, e)) => {
                    let l = Lexer {
                        src: source,
                        n,
                        pos: e,
                        peeked: Some(t),
                        peek_start: j,
                        peek_end: e,
                        cur_text: String::new(),
                    };
                    proof {
                        assert(l@.toks =~= stream_of(source@).toks);
                        assert(l@ =~= stream_of(source@));
                    }
                    Ok(l)
                },
                None => {
                    let slice = source.substring_char(j, j + 1).to_owned();
                    proof {
                        assert(slice@ =~= seq![source@[j as int]]);
                        assert(stream_of(source@).toks =~= Seq::<TokenV>::empty());
                    }
                    Err(ParseError::new(slice, "unrecognized token"))
                },
            }
        }
    }

    /// The category of the token in peek position, without consuming it;
    /// `None` at end of input. Idempotent.
    pub fn peek(&self) -> (r: Option<Token>)
        requires
            self.wf(),
        ensures
            r == peek_kind(self@),
    {
        self.peeked
    }

    /// Consumes and returns the token in peek position and pre-fetches the
    /// next one, failing with the unmatched slice if the new position matches
    /// no token pattern. Returns `Ok(None)` at end of input.
    pub fn next(&mut self) -> (r: Result<Option<Token>, ParseError>)
        requires
            old(self).wf(),
        ensures
            sp_advance(old(self)@) matches Ok(p) ==> r matches Ok(t) && t == p.0
                && final(self).wf() && final(self)@ == p.1,
            sp_advance(old(self)@) matches Err(e) ==> r matches Err(pe) && pe@ == e,
    {
        match self.peeked {
            None => {
                self.cur_text = String::new();
                proof {
                    assert(self@ =~= sp_advance(old(self)@)->Ok_0.1);
                }
                Ok(None)
            },
            Some(t) => {
                self.cur_text = self.src.substring_char(self.peek_start, self.peek_end).to_owned();
                let j = skip_trivia_x(self.src, self.n, self.pos);
                if j == self.n {
                    self.peeked = None;
                    self.pos = j;
                    proof {
                        assert(old(self)@.toks.len() == 1);
                        assert(self@ =~= sp_advance(old(self)@)->Ok_0.1);
                    }
                    Ok(Some(t))
                } else {
                    match scan_token_x(self.src, self.n, j) {
                        Some((t2, e)) => {
                            self.peeked = Some(t2);
                            self.peek_start = j;
                            self.peek_end = e;
                            self.pos = e;
                            proof {
                                assert(old(self)@.toks.len() >= 2);
                                assert(self@.toks =~= old(self)@.toks.drop_first());
                                assert(self@ =~= sp_advance(old(self)@)->Ok_0.1);
                            }
                            Ok(Some(t))
                        },
                        None => {
                            let slice = self.src.substring_char(j, j + 1).to_owned();
                            self.peeked = None;
                            self.pos = self.n;
                            proof {
                                assert(old(self)@.toks.len() == 1);
                                assert(slice@ =~= seq![self.src@[j as int]]);
                            }
                            Err(ParseError::new(slice, "unrecognized token"))
                        },
                    }
                }
            },
        }
    }

    /// The literal source text of the most recently consumed token; empty
    /// before any token has been consumed.
    pub fn tok_string(&self) -> (r: String)
        ensures
            r@ == self@.cur,
    {
        self.cur_text.clone()
    }
}

} // verus!
