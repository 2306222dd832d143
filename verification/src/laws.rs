//! Laws of the lexer and the parser, stated over the spec-level grammar and
//! proved once and for all. Together with the functional contracts of
//! `Lexer::new`, `Lexer::next` and the `parse` functions — whose results are
//! pinned to `stream_of`, `sp_ident` and `sp_def` — they describe the
//! observable behaviour on whole classes of inputs.

use vstd::prelude::*;

use crate::ast::grammar::sp_def;
use crate::ast::grammar::sp_ident;
use crate::lexer::is_comment_start;
use crate::lexer::lex_from;
use crate::lexer::is_def_word;
use crate::lexer::is_digit_char;
use crate::lexer::is_ident_char;
use crate::lexer::is_ident_start_char;
use crate::lexer::is_let_word;
use crate::lexer::is_ws_char;
use crate::lexer::lemma_scan_while_digit_bounds;
use crate::lexer::lemma_skip_trivia_bounds;
use crate::lexer::peek_kind;
use crate::lexer::scan_token;
use crate::lexer::scan_while_ident;
use crate::lexer::skip_trivia;
use crate::lexer::stream_of;
use crate::lexer::Token;
use crate::lexer::TokenV;

verus! {

/// A non-empty text of identifier characters that does not start with a
/// digit: exactly the identifiers `[a-zA-Z_][a-zA-Z0-9_]*`.
pub open spec fn is_ident_text(s: Seq<char>) -> bool {
    &&& s.len() > 0
    &&& is_ident_start_char(s[0])
    &&& forall|i: int| 0 <= i < s.len() ==> is_ident_char(#[trigger] s[i])
}

/// The reserved words, which lex as keywords rather than identifiers.
pub open spec fn is_keyword_text(s: Seq<char>) -> bool {
    is_let_word(s, 0, s.len() as int) || is_def_word(s, 0, s.len() as int)
}

/// A character at which no token pattern and no trivia pattern can start.
pub open spec fn starts_nothing(c: char) -> bool {
    &&& !is_ws_char(c)
    &&& !is_ident_start_char(c)
    &&& !is_digit_char(c)
    &&& c != '"' && c != '\'' && c != ':' && c != '-' && c != '/' && c != ';' && c != '=' && c
        != '.' && c != ',' && c != '+' && c != '*' && c != '%' && c != '^' && c != '&' && c != '|'
        && c != '!' && c != '(' && c != ')' && c != '[' && c != ']' && c != '{' && c != '}' && c
        != '<' && c != '>'
}

/// An all-identifier-character suffix scans to the end of the text.
proof fn lemma_scan_ident_all(s: Seq<char>, k: int)
    requires
        1 <= k <= s.len(),
        forall|i: int| k <= i < s.len() ==> is_ident_char(#[trigger] s[i]),
    ensures
        scan_while_ident(s, k) == s.len(),
    decreases s.len() - k,
{
    if k < s.len() {
        lemma_scan_ident_all(s, k + 1);
    }
}

/// An identifier-character run scans exactly to its first non-identifier
/// character.
proof fn lemma_scan_ident_stops(s: Seq<char>, j: int, k: int)
    requires
        1 <= j <= k < s.len(),
        forall|i: int| j <= i < k ==> is_ident_char(#[trigger] s[i]),
        !is_ident_char(s[k]),
    ensures
        scan_while_ident(s, j) == k,
    decreases k - j,
{
    if j < k {
        lemma_scan_ident_stops(s, j + 1, k);
    }
}

/// Every valid identifier other than the two keywords lexes to a single
/// `Identifier` token carrying exactly its own text, and the Ident rule then
/// succeeds on it, round-tripping the text and consuming the whole input.
pub proof fn lemma_valid_ident_round_trips(s: Seq<char>)
    requires
        is_ident_text(s),
        !is_keyword_text(s),
    ensures
        stream_of(s).toks == seq![TokenV { kind: Token::Identifier, text: s }],
        stream_of(s).err is None,
        sp_ident(stream_of(s)) matches Ok(p) && p.0 == s && p.1.toks.len() == 0,
{
    assert(!is_ws_char(s[0]) && !is_comment_start(s, 0));
    assert(skip_trivia(s, 0) == 0);
    lemma_scan_ident_all(s, 1);
    assert(scan_token(s, 0) == Some((Token::Identifier, s.len() as int)));
    assert(s.subrange(0, s.len() as int) =~= s);
    assert(skip_trivia(s, s.len() as int) == s.len());
    assert(lex_from(s, s.len() as int).toks.len() == 0 && lex_from(s, s.len() as int).err
        is None);
    assert(lex_from(s, 0).toks =~= seq![TokenV { kind: Token::Identifier, text: s }] + lex_from(
        s,
        s.len() as int,
    ).toks);
    assert(stream_of(s).toks =~= seq![TokenV { kind: Token::Identifier, text: s }]);
}

/// An input whose first character is a digit lexes to a `Number` (never an
/// `Identifier`) in first position, so the Ident rule fails on it.
pub proof fn lemma_digit_start_fails(s: Seq<char>)
    requires
        s.len() > 0,
        is_digit_char(s[0]),
    ensures
        stream_of(s).toks.len() > 0,
        stream_of(s).toks[0].kind == Token::Number,
        sp_ident(stream_of(s)) is Err,
{
    assert(!is_ws_char(s[0]) && !is_comment_start(s, 0));
    assert(skip_trivia(s, 0) == 0);
    lemma_scan_while_digit_bounds(s, 1);
}

/// An identifier run followed directly by a character at which no token or
/// trivia pattern starts: the run lexes as a single leading token, the bad
/// character is an unmatched slice right after it, and the Ident rule fails
/// — on the pre-fetch of the bad position if the run was an identifier, on
/// the keyword lookahead otherwise.
pub proof fn lemma_ident_then_unmatched_fails(s: Seq<char>, k: int)
    requires
        0 < k < s.len(),
        is_ident_start_char(s[0]),
        forall|i: int| 0 <= i < k ==> is_ident_char(#[trigger] s[i]),
        starts_nothing(s[k]),
    ensures
        stream_of(s).toks.len() == 1,
        stream_of(s).err == Some(seq![s[k]]),
        sp_ident(stream_of(s)) is Err,
{
    assert(!is_ws_char(s[0]) && !is_comment_start(s, 0));
    assert(skip_trivia(s, 0) == 0);
    if k == 1 {
        assert(scan_while_ident(s, 1) == k);
    } else {
        lemma_scan_ident_stops(s, 1, k);
    }
    assert(scan_token(s, 0) matches Some(p) && p.1 == k);
    assert(!is_ws_char(s[k]) && !is_comment_start(s, k));
    assert(skip_trivia(s, k) == k);
    assert(scan_token(s, k) is None);
    assert(lex_from(s, k).toks.len() == 0 && lex_from(s, k).err == Some(seq![s[k]]));
    assert(lex_from(s, 0).toks.len() == 1);
    assert(stream_of(s).err == Some(seq![s[k]]));
}

/// Re-parsing equal source texts yields equal results: the parse result is
/// a function of the text alone, so two parses of the same input produce
/// structurally equal trees, or equal errors.
pub proof fn lemma_reparse_equal(s1: Seq<char>, s2: Seq<char>)
    requires
        s1 == s2,
    ensures
        sp_def(stream_of(s1)) == sp_def(stream_of(s2)),
{
}

/// An input consisting solely of whitespace and comments lexes to the empty
/// stream without error, so a fresh lexer over it answers `None` to `peek`.
pub proof fn lemma_trivia_only_lexes_empty(s: Seq<char>)
    requires
        skip_trivia(s, 0) == s.len(),
    ensures
        stream_of(s).toks.len() == 0,
        stream_of(s).err is None,
        peek_kind(stream_of(s)) is None,
{
}

/// An input at whose first non-trivia position no token pattern matches
/// lexes to no token at all, and the unmatched slice is the character at
/// that position — the case in which lexer construction fails.
pub proof fn lemma_unmatched_first_fails(s: Seq<char>)
    requires
        skip_trivia(s, 0) < s.len(),
        scan_token(s, skip_trivia(s, 0)) is None,
    ensures
        stream_of(s).toks.len() == 0,
        stream_of(s).err == Some(seq![s[skip_trivia(s, 0)]]),
{
    lemma_skip_trivia_bounds(s, 0);
}

} // verus!
