//! Type definitions: sum types, product types, and the reserved function
//! form.

use vstd::prelude::*;

use crate::ast::func::{Func, FuncV};
use crate::ast::grammar::sp_def;
use crate::ast::ident::Ident;
use crate::ast::prod::Prod;
use crate::ast::sum::Sum;
use crate::ast::ty::TyV;
use crate::ast::ParseError;
use crate::lexer::{Lexer, Token};

verus! {

/// A named type definition: a tagged union (`Sum`), a product (`Prod`), or
/// the reserved named-function form (`Func`), which no grammar rule yet
/// produces.
#[derive(Debug, PartialEq, Eq)]
pub enum Def {
    Sum(Ident, Sum),
    Prod(Ident, Prod),
    Func(Ident, Func),
}

/// Abstract value of a `Def`: its name and the views of its parts.
pub enum DefV {
    Sum(Seq<char>, Seq<TyV>),
    Prod(Seq<char>, Seq<TyV>),
    Func(Seq<char>, FuncV),
}

impl View for Def {
    type V = DefV;

    open spec fn view(&self) -> DefV
        decreases self,
    {
        match self {
            Def::Sum(id, s) => DefV::Sum(id@, s@),
            Def::Prod(id, p) => DefV::Prod(id@, p@),
            Def::Func(id, f) => DefV::Func(id@, f@),
        }
    }
}

impl Def {
    /// Parses one type definition: an identifier, then a Sum body after a
    /// `<` lookahead or a Prod body after a `[` lookahead; any other
    /// lookahead is a structural mismatch.
    pub fn parse(lexer: &mut Lexer) -> (r: Result<Def, ParseError>)
        requires
            old(lexer).wf(),
        ensures
            sp_def(old(lexer)@) matches Ok(p) ==> r matches Ok(v) && v@ == p.0
                && final(lexer).wf() && final(lexer)@ == p.1,
            sp_def(old(lexer)@) matches Err(e) ==> r matches Err(pe) && pe@ == e,
    {
        match Ident::parse(lexer) {
            Err(e) => Err(e.context("Def: expected type identifier")),
            Ok(id) => {
                match lexer.peek() {
                    Some(Token::LeftAngleBracket) => {
                        match Sum::parse(lexer) {
                            Ok(s) => Ok(Def::Sum(id, s)),
                            Err(e) => Err(e.context("Def: expected type definition")),
                        }
                    },
                    Some(Token::LeftBracket) => {
                        match Prod::parse(lexer) {
                            Ok(p) => Ok(Def::Prod(id, p)),
                            Err(e) => Err(e.context("Def: expected type definition")),
                        }
                    },
                    _ => ParseError::err(
                        lexer.tok_string(),
                        "Def: expected left bracket or left angle bracket for type definition",
                    ),
                }
            },
        }
    }
}

} // verus!
