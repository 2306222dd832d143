//! Product type bodies: the fields of a structure.

use vstd::prelude::*;

use crate::ast::grammar::{lemma_subtypes_unfuel, sp_prod};
use crate::ast::subtypes::Subtypes;
use crate::ast::ty::TyV;
use crate::ast::ParseError;
use crate::lexer::{Lexer, Token};

verus! {

/// The body of a product type: its ordered field types.
#[derive(Debug, PartialEq, Eq)]
pub struct Prod(pub Subtypes);

impl View for Prod {
    type V = Seq<TyV>;

    open spec fn view(&self) -> Seq<TyV>
        decreases self,
    {
        self.0@
    }
}

impl Prod {
    /// Parses a product body: requires a `[` lookahead, consumes it, and
    /// delegates to the Subtypes rule, which consumes the matching `]`.
    pub fn parse(lexer: &mut Lexer) -> (r: Result<Prod, ParseError>)
        requires
            old(lexer).wf(),
        ensures
            sp_prod(old(lexer)@) matches Ok(p) ==> r matches Ok(v) && v@ == p.0
                && final(lexer).wf() && final(lexer)@ == p.1,
            sp_prod(old(lexer)@) matches Err(e) ==> r matches Err(pe) && pe@ == e,
        decreases old(lexer)@.toks.len(), 0nat,
    {
        let ghost d = (3 * old(lexer)@.toks.len() + 2) as nat;
        match lexer.peek() {
            Some(Token::LeftBracket) => {
                match lexer.next() {
                    Err(e) => Err(e),
                    Ok(_) => {
                        proof {
                            lemma_subtypes_unfuel(lexer@, Token::RightBracket, (d - 1) as nat);
                        }
                        match Subtypes::parse(lexer, Token::RightBracket) {
                            Ok(s) => Ok(Prod(s)),
                            Err(e) => Err(e.context("Prod: expected subtypes")),
                        }
                    },
                }
            },
            _ => ParseError::err(lexer.tok_string(), "Prod: expected left bracket"),
        }
    }
}

} // verus!
