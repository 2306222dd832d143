//! Expressions. The expression sublanguage is out of scope for the type
//! front end: only the block form is declared, as the body type of the
//! reserved function definitions, and no grammar rule yet produces it.

use vstd::prelude::*;

verus! {

/// An expression; presently only a block of expressions.
#[derive(Debug, PartialEq, Eq)]
pub enum Expr {
    Block(Block),
}

/// Abstract value of an `Expr`.
pub enum ExprV {
    Block(Seq<ExprV>),
}

impl View for Expr {
    type V = ExprV;

    open spec fn view(&self) -> ExprV
        decreases self,
    {
        match self {
            Expr::Block(b) => ExprV::Block(b@),
        }
    }
}

/// A braced sequence of expressions.
#[derive(Debug, PartialEq, Eq)]
pub struct Block {
    exprs: Vec<Expr>,
}

/// Views of the expressions, in order.
pub closed spec fn exprs_view(s: Seq<Expr>) -> Seq<ExprV>
    decreases s,
{
    if s.len() == 0 {
        Seq::empty()
    } else {
        seq![s[0]@] + exprs_view(s.drop_first())
    }
}

impl View for Block {
    type V = Seq<ExprV>;

    closed spec fn view(&self) -> Seq<ExprV>
        decreases self,
    {
        exprs_view(self.exprs@)
    }
}

} // verus!
