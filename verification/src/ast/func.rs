//! The reserved named-function definition form. The grammar's Definition
//! dispatch never produces it; it is held for a future keyword-triggered
//! rule, and its body type belongs to the expression sublanguage.

use vstd::prelude::*;

use crate::ast::expr::{Expr, ExprV};
use crate::ast::ty::{Ty, TyV};

verus! {

/// A named function: its argument type and its body expression.
#[derive(Debug, PartialEq, Eq)]
pub struct Func {
    argument: Ty,
    body: Box<Expr>,
}

/// Abstract value of a `Func`.
pub struct FuncV {
    pub argument: Box<TyV>,
    pub body: Box<ExprV>,
}

impl View for Func {
    type V = FuncV;

    closed spec fn view(&self) -> FuncV
        decreases self,
    {
        FuncV { argument: Box::new(self.argument@), body: Box::new((*self.body)@) }
    }
}

} // verus!
