//! Type references: a named reference to a type defined elsewhere, or an
//! inline nested definition.

use vstd::prelude::*;

use crate::ast::def::{Def, DefV};
use crate::ast::grammar::{lemma_prod_unfuel, lemma_sum_unfuel, sp_ty};
use crate::ast::ident::Ident;
use crate::ast::prod::Prod;
use crate::ast::sum::Sum;
use crate::ast::ParseError;
use crate::lexer::{Lexer, Token};

verus! {

/// A type reference: `Named` mentions a type by identifier only, to be
/// resolved by a later pass; `Def` gives a nested inline definition.
#[derive(Debug, PartialEq, Eq)]
pub enum Ty {
    Named(Ident),
    Def(Box<Def>),
}

/// Abstract value of a `Ty`.
pub enum TyV {
    Named(Seq<char>),
    Def(Box<DefV>),
}

impl View for Ty {
    type V = TyV;

    open spec fn view(&self) -> TyV
        decreases self,
    {
        match self {
            Ty::Named(id) => TyV::Named(id@),
            Ty::Def(d) => TyV::Def(Box::new((**d)@)),
        }
    }
}

impl Ty {
    /// Parses one type reference: an identifier, then — when a `<` or `[`
    /// immediately follows — the rest of an inline definition named by it;
    /// otherwise the identifier alone is a named reference. The fallback
    /// reuses the identifier already consumed and never rescans.
    pub fn parse(lexer: &mut Lexer) -> (r: Result<Ty, ParseError>)
        requires
            old(lexer).wf(),
        ensures
            sp_ty(old(lexer)@) matches Ok(p) ==> r matches Ok(v) && v@ == p.0
                && final(lexer).wf() && final(lexer)@ == p.1,
            sp_ty(old(lexer)@) matches Err(e) ==> r matches Err(pe) && pe@ == e,
        decreases old(lexer)@.toks.len(), 0nat,
    {
        let ghost d = (3 * old(lexer)@.toks.len() + 3) as nat;
        match Ident::parse(lexer) {
            Err(e) => Err(e.context("Ty: expected identifier")),
            Ok(id) => {
                match lexer.peek() {
                    Some(Token::LeftAngleBracket) => {
                        proof {
                            lemma_sum_unfuel(lexer@, (d - 1) as nat);
                        }
                        match Sum::parse(lexer) {
                            Ok(s) => Ok(Ty::Def(Box::new(Def::Sum(id, s)))),
                            Err(e) => Err(e.context("Ty: expected type definition")),
                        }
                    },
                    Some(Token::LeftBracket) => {
                        proof {
                            lemma_prod_unfuel(lexer@, (d - 1) as nat);
                        }
                        match Prod::parse(lexer) {
                            Ok(p) => Ok(Ty::Def(Box::new(Def::Prod(id, p)))),
                            Err(e) => Err(e.context("Ty: expected type definition")),
                        }
                    },
                    _ => Ok(Ty::Named(id)),
                }
            },
        }
    }
}

} // verus!
