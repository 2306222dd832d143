//! Sum type bodies: the variants of a tagged union.

use vstd::prelude::*;

use crate::ast::grammar::{lemma_subtypes_unfuel, sp_sum};
use crate::ast::subtypes::Subtypes;
use crate::ast::ty::TyV;
use crate::ast::ParseError;
use crate::lexer::{Lexer, Token};

verus! {

/// The body of a sum type: its ordered variant types.
#[derive(Debug, PartialEq, Eq)]
pub struct Sum(pub Subtypes);

impl View for Sum {
    type V = Seq<TyV>;

    open spec fn view(&self) -> Seq<TyV>
        decreases self,
    {
        self.0@
    }
}

impl Sum {
    /// Parses a sum body: requires a `<` lookahead, consumes it, and
    /// delegates to the Subtypes rule, which consumes the matching `>`.
    pub fn parse(lexer: &mut Lexer) -> (r: Result<Sum, ParseError>)
        requires
            old(lexer).wf(),
        ensures
            sp_sum(old(lexer)@) matches Ok(p) ==> r matches Ok(v) && v@ == p.0
                && final(lexer).wf() && final(lexer)@ == p.1,
            sp_sum(old(lexer)@) matches Err(e) ==> r matches Err(pe) && pe@ == e,
        decreases old(lexer)@.toks.len(), 0nat,
    {
        let ghost d = (3 * old(lexer)@.toks.len() + 2) as nat;
        match lexer.peek() {
            Some(Token::LeftAngleBracket) => {
                match lexer.next() {
                    Err(e) => Err(e),
                    Ok(_) => {
                        proof {
                            lemma_subtypes_unfuel(lexer@, Token::RightAngleBracket, (d - 1) as nat);
                        }
                        match Subtypes::parse(lexer, Token::RightAngleBracket) {
                            Ok(s) => Ok(Sum(s)),
                            Err(e) => Err(e.context("Sum: expected subtypes")),
                        }
                    },
                }
            },
            _ => ParseError::err(lexer.tok_string(), "Sum: expected left angle bracket"),
        }
    }
}

} // verus!
