//! Subtype lists: the ordered element types inside a definition's brackets.

use vstd::prelude::*;

use crate::ast::grammar::{lemma_subtypes_unfuel, lemma_ty_unfuel, sp_subtypes};
use crate::ast::ty::{Ty, TyV};
use crate::ast::ParseError;
use crate::lexer::{Lexer, Token};

verus! {

/// An ordered sequence of type references; insertion order is variant or
/// field order. May be empty.
#[derive(Debug, PartialEq, Eq)]
pub struct Subtypes(pub Vec<Ty>);

/// Views of the elements, in order.
pub open spec fn tys_view(s: Seq<Ty>) -> Seq<TyV>
    decreases s,
{
    if s.len() == 0 {
        Seq::empty()
    } else {
        seq![s[0]@] + tys_view(s.drop_first())
    }
}

impl View for Subtypes {
    type V = Seq<TyV>;

    open spec fn view(&self) -> Seq<TyV>
        decreases self,
    {
        tys_view(self.0@)
    }
}

/// Prepending an element prepends its view.
proof fn lemma_tys_view_cons(x: Ty, s: Seq<Ty>)
    ensures
        tys_view(s.insert(0, x)) == seq![x@] + tys_view(s),
{
    let c = s.insert(0, x);
    assert(c =~= seq![x] + s);
    assert(c.len() > 0);
    assert(c[0] == x);
    assert(c.drop_first() =~= s);
}

impl Subtypes {
    /// Parses the element list of a definition body up to and including the
    /// expected closing bracket `close`. While the lookahead is not `close`,
    /// consumes at most one separating comma — permitted also before the
    /// first element, not required between elements — and parses one type
    /// reference.
    pub fn parse(lexer: &mut Lexer, close: Token) -> (r: Result<Subtypes, ParseError>)
        requires
            old(lexer).wf(),
        ensures
            sp_subtypes(old(lexer)@, close) matches Ok(p) ==> r matches Ok(v) && v@ == p.0
                && final(lexer).wf() && final(lexer)@ == p.1,
            sp_subtypes(old(lexer)@, close) matches Err(e) ==> r matches Err(pe) && pe@ == e,
        decreases old(lexer)@.toks.len(), 1nat,
    {
        let ghost d = (3 * old(lexer)@.toks.len() + 4) as nat;
        let at_close = match lexer.peek() {
            Some(t) => t == close,
            None => false,
        };
        if at_close {
            match lexer.next() {
                Err(e) => Err(e),
                Ok(_) => {
                    proof {
                        assert(tys_view(Seq::<Ty>::empty()) =~= Seq::<TyV>::empty());
                    }
                    Ok(Subtypes(Vec::new()))
                },
            }
        } else {
            let at_comma = match lexer.peek() {
                Some(Token::Comma) => true,
                _ => false,
            };
            if at_comma {
                match lexer.next() {
                    Err(e) => return Err(e),
                    Ok(_) => {},
                }
            }
            proof {
                lemma_ty_unfuel(lexer@, (d - 1) as nat);
            }
            let ty = match Ty::parse(lexer) {
                Err(e) => return Err(e.context("Subtypes: expected type")),
                Ok(t) => t,
            };
            proof {
                lemma_subtypes_unfuel(lexer@, close, (d - 1) as nat);
            }
            match Self::parse(lexer, close) {
                Err(e) => Err(e),
                Ok(rest) => {
                    let ghost rest_seq = rest.0@;
                    let mut v = rest.0;
                    v.insert(0, ty);
                    proof {
                        lemma_tys_view_cons(ty, rest_seq);
                    }
                    Ok(Subtypes(v))
                },
            }
        }
    }
}

} // verus!
