//! Identifiers: validated leaf names.

use vstd::prelude::*;

use crate::ast::grammar::sp_ident;
use crate::ast::ParseError;
use crate::lexer::{Lexer, Token};

verus! {

/// A validated identifier matching `[a-zA-Z_][a-zA-Z0-9_]*`; owns its text.
#[derive(Clone, Debug, PartialEq, Eq)]
pub struct Ident(pub String);

impl View for Ident {
    type V = Seq<char>;

    open spec fn view(&self) -> Seq<char> {
        self.0@
    }
}

impl Ident {
    /// Consumes one `Identifier` token and returns its literal text; fails
    /// on any other lookahead, or on a lexical error while pre-fetching the
    /// following token.
    pub fn parse(lexer: &mut Lexer) -> (r: Result<Ident, ParseError>)
        requires
            old(lexer).wf(),
        ensures
            sp_ident(old(lexer)@) matches Ok(p) ==> r matches Ok(id) && id@ == p.0
                && final(lexer).wf() && final(lexer)@ == p.1,
            sp_ident(old(lexer)@) matches Err(e) ==> r matches Err(pe) && pe@ == e,
    {
        match lexer.peek() {
            Some(Token::Identifier) => {
                match lexer.next() {
                    Ok(_) => Ok(Ident(lexer.tok_string())),
                    Err(e) => Err(e),
                }
            },
            _ => ParseError::err(lexer.tok_string(), "Ident: expected identifier"),
        }
    }
}

} // verus!
