//! The grammar, as spec functions: one rule per AST node kind, each mapping
//! an abstract token stream to the parsed value and the rest of the stream,
//! or to the exact structured error.
//!
//! ```text
//! Definition := Ident ( '<' Subtypes '>' | '[' Subtypes ']' )
//! Subtypes   := ( ','? Ty )*          closing bracket consumed by context
//! Ty         := Definition | Ident
//! ```
//!
//! The mutually recursive rules are defined with an explicit fuel parameter
//! `d` so that termination is structural; `lemma_sum_fuel` and its siblings
//! show that any fuel of at least three times the stream length plus a small
//! rule-dependent constant gives the same (fuel-free) result, which the
//! `sp_sum`/`sp_prod`/`sp_ty`/`sp_subtypes` forms fix canonically.

use vstd::prelude::*;

use crate::ast::def::DefV;
use crate::ast::ty::TyV;
use crate::ast::{lex_error_v, ErrV};
use crate::lexer::{advance_stream, peek_kind, sp_advance, StreamV, Token};

verus! {

/// A rule's own structural-mismatch error: the text of the most recently
/// consumed token under a single cause.
pub open spec fn rule_error(st: StreamV, cause: Seq<char>) -> ErrV {
    ErrV { tok: st.cur, trace: seq![cause] }
}

/// A sub-rule's error with one enclosing rule context appended.
pub open spec fn with_ctx(e: ErrV, d: Seq<char>) -> ErrV {
    ErrV { tok: e.tok, trace: e.trace.push(d) }
}

/// Placeholder result of a rule denied fuel; never reached from the
/// fuel-free forms.
pub open spec fn fuel_err() -> ErrV {
    ErrV { tok: Seq::empty(), trace: Seq::empty() }
}

/// The Ident rule: succeeds exactly on an `Identifier` lookahead and yields
/// its literal text.
pub open spec fn sp_ident(st: StreamV) -> Result<(Seq<char>, StreamV), ErrV> {
    if peek_kind(st) == Some(Token::Identifier) {
        match sp_advance(st) {
            Ok(p) => Ok((st.toks[0].text, p.1)),
            Err(e) => Err(e),
        }
    } else {
        Err(rule_error(st, "Ident: expected identifier"@))
    }
}

/// The Sum rule with fuel: `'<' Subtypes`, the `'>'` being consumed by the
/// Subtypes rule.
pub open spec fn sp_sum_f(st: StreamV, d: nat) -> Result<(Seq<TyV>, StreamV), ErrV>
    decreases d,
{
    if d == 0 {
        Err(fuel_err())
    } else if peek_kind(st) == Some(Token::LeftAngleBracket) {
        match sp_advance(st) {
            Ok(p) => match sp_subtypes_f(p.1, Token::RightAngleBracket, (d - 1) as nat) {
                Ok(q) => Ok(q),
                Err(e) => Err(with_ctx(e, "Sum: expected subtypes"@)),
            },
            Err(e) => Err(e),
        }
    } else {
        Err(rule_error(st, "Sum: expected left angle bracket"@))
    }
}

/// The Prod rule with fuel: `'[' Subtypes`, the `']'` being consumed by the
/// Subtypes rule.
pub open spec fn sp_prod_f(st: StreamV, d: nat) -> Result<(Seq<TyV>, StreamV), ErrV>
    decreases d,
{
    if d == 0 {
        Err(fuel_err())
    } else if peek_kind(st) == Some(Token::LeftBracket) {
        match sp_advance(st) {
            Ok(p) => match sp_subtypes_f(p.1, Token::RightBracket, (d - 1) as nat) {
                Ok(q) => Ok(q),
                Err(e) => Err(with_ctx(e, "Prod: expected subtypes"@)),
            },
            Err(e) => Err(e),
        }
    } else {
        Err(rule_error(st, "Prod: expected left bracket"@))
    }
}

/// The Ty rule with fuel: an identifier, then — on a `<` or `[` lookahead —
/// the rest of an inline definition named by it; otherwise the identifier is
/// a named reference. The fallback consumes no token beyond the identifier.
pub open spec fn sp_ty_f(st: StreamV, d: nat) -> Result<(TyV, StreamV), ErrV>
    decreases d,
{
    if d == 0 {
        Err(fuel_err())
    } else {
        match sp_ident(st) {
            Err(e) => Err(with_ctx(e, "Ty: expected identifier"@)),
            Ok(p) => {
                if peek_kind(p.1) == Some(Token::LeftAngleBracket) {
                    match sp_sum_f(p.1, (d - 1) as nat) {
                        Ok(q) => Ok((TyV::Def(Box::new(DefV::Sum(p.0, q.0))), q.1)),
                        Err(e) => Err(with_ctx(e, "Ty: expected type definition"@)),
                    }
                } else if peek_kind(p.1) == Some(Token::LeftBracket) {
                    match sp_prod_f(p.1, (d - 1) as nat) {
                        Ok(q) => Ok((TyV::Def(Box::new(DefV::Prod(p.0, q.0))), q.1)),
                        Err(e) => Err(with_ctx(e, "Ty: expected type definition"@)),
                    }
                } else {
                    Ok((TyV::Named(p.0), p.1))
                }
            },
        }
    }
}

/// The Subtypes rule with fuel: while the lookahead is not the expected
/// closing bracket, consume at most one separating comma (permitted also
/// before the first element) and parse one Ty; on the closing bracket,
/// consume it and stop. A comma directly before the closing bracket is not
/// accepted: the element it announces is parsed and fails.
pub open spec fn sp_subtypes_f(st: StreamV, close: Token, d: nat) -> Result<
    (Seq<TyV>, StreamV),
    ErrV,
>
    decreases d,
{
    if d == 0 {
        Err(fuel_err())
    } else if peek_kind(st) == Some(close) {
        match sp_advance(st) {
            Ok(p) => Ok((Seq::empty(), p.1)),
            Err(e) => Err(e),
        }
    } else {
        let stc = if peek_kind(st) == Some(Token::Comma) {
            sp_advance(st)
        } else {
            Ok((peek_kind(st), st))
        };
        match stc {
            Err(e) => Err(e),
            Ok(p1) => match sp_ty_f(p1.1, (d - 1) as nat) {
                Err(e) => Err(with_ctx(e, "Subtypes: expected type"@)),
                Ok(q) => match sp_subtypes_f(q.1, close, (d - 1) as nat) {
                    Err(e) => Err(e),
                    Ok(r2) => Ok((seq![q.0] + r2.0, r2.1)),
                },
            },
        }
    }
}

/// The Sum rule, fuel-free.
pub open spec fn sp_sum(st: StreamV) -> Result<(Seq<TyV>, StreamV), ErrV> {
    sp_sum_f(st, (3 * st.toks.len() + 2) as nat)
}

/// The Prod rule, fuel-free.
pub open spec fn sp_prod(st: StreamV) -> Result<(Seq<TyV>, StreamV), ErrV> {
    sp_prod_f(st, (3 * st.toks.len() + 2) as nat)
}

/// The Ty rule, fuel-free.
pub open spec fn sp_ty(st: StreamV) -> Result<(TyV, StreamV), ErrV> {
    sp_ty_f(st, (3 * st.toks.len() + 3) as nat)
}

/// The Subtypes rule, fuel-free.
pub open spec fn sp_subtypes(st: StreamV, close: Token) -> Result<(Seq<TyV>, StreamV), ErrV> {
    sp_subtypes_f(st, close, (3 * st.toks.len() + 4) as nat)
}

/// The Definition rule: an identifier, then a Sum or Prod body chosen by one
/// token of lookahead. Not itself recursive.
pub open spec fn sp_def(st: StreamV) -> Result<(DefV, StreamV), ErrV> {
    match sp_ident(st) {
        Err(e) => Err(with_ctx(e, "Def: expected type identifier"@)),
        Ok(p) => {
            if peek_kind(p.1) == Some(Token::LeftAngleBracket) {
                match sp_sum(p.1) {
                    Ok(q) => Ok((DefV::Sum(p.0, q.0), q.1)),
                    Err(e) => Err(with_ctx(e, "Def: expected type definition"@)),
                }
            } else if peek_kind(p.1) == Some(Token::LeftBracket) {
                match sp_prod(p.1) {
                    Ok(q) => Ok((DefV::Prod(p.0, q.0), q.1)),
                    Err(e) => Err(with_ctx(e, "Def: expected type definition"@)),
                }
            } else {
                Err(rule_error(p.1, "Def: expected left bracket or left angle bracket for type definition"@))
            }
        },
    }
}

/// Any two sufficient fuels give the Sum rule the same result, which on
/// success consumes at least one token.
pub proof fn lemma_sum_fuel(st: StreamV, d1: nat, d2: nat)
    requires
        d1 >= 3 * st.toks.len() + 2,
        d2 >= 3 * st.toks.len() + 2,
    ensures
        sp_sum_f(st, d1) == sp_sum_f(st, d2),
        sp_sum_f(st, d1) matches Ok(p) ==> p.1.toks.len() < st.toks.len(),
    decreases d1,
{
    if peek_kind(st) == Some(Token::LeftAngleBracket) {
        match sp_advance(st) {
            Ok(p) => {
                lemma_subtypes_fuel(p.1, Token::RightAngleBracket, (d1 - 1) as nat, (d2 - 1) as nat);
            },
            Err(_) => {},
        }
    }
}

/// Any two sufficient fuels give the Prod rule the same result, which on
/// success consumes at least one token.
pub proof fn lemma_prod_fuel(st: StreamV, d1: nat, d2: nat)
    requires
        d1 >= 3 * st.toks.len() + 2,
        d2 >= 3 * st.toks.len() + 2,
    ensures
        sp_prod_f(st, d1) == sp_prod_f(st, d2),
        sp_prod_f(st, d1) matches Ok(p) ==> p.1.toks.len() < st.toks.len(),
    decreases d1,
{
    if peek_kind(st) == Some(Token::LeftBracket) {
        match sp_advance(st) {
            Ok(p) => {
                lemma_subtypes_fuel(p.1, Token::RightBracket, (d1 - 1) as nat, (d2 - 1) as nat);
            },
            Err(_) => {},
        }
    }
}

/// Any two sufficient fuels give the Ty rule the same result, which on
/// success consumes at least one token.
pub proof fn lemma_ty_fuel(st: StreamV, d1: nat, d2: nat)
    requires
        d1 >= 3 * st.toks.len() + 3,
        d2 >= 3 * st.toks.len() + 3,
    ensures
        sp_ty_f(st, d1) == sp_ty_f(st, d2),
        sp_ty_f(st, d1) matches Ok(p) ==> p.1.toks.len() < st.toks.len(),
    decreases d1,
{
    match sp_ident(st) {
        Ok(p) => {
            if peek_kind(p.1) == Some(Token::LeftAngleBracket) {
                lemma_sum_fuel(p.1, (d1 - 1) as nat, (d2 - 1) as nat);
            } else if peek_kind(p.1) == Some(Token::LeftBracket) {
                lemma_prod_fuel(p.1, (d1 - 1) as nat, (d2 - 1) as nat);
            }
        },
        Err(_) => {},
    }
}

/// Any two sufficient fuels give the Subtypes rule the same result, which on
/// success consumes at least one token.
pub proof fn lemma_subtypes_fuel(st: StreamV, close: Token, d1: nat, d2: nat)
    requires
        d1 >= 3 * st.toks.len() + 4,
        d2 >= 3 * st.toks.len() + 4,
    ensures
        sp_subtypes_f(st, close, d1) == sp_subtypes_f(st, close, d2),
        sp_subtypes_f(st, close, d1) matches Ok(p) ==> p.1.toks.len() < st.toks.len(),
    decreases d1,
{
    if peek_kind(st) == Some(close) {
    } else {
        let stc = if peek_kind(st) == Some(Token::Comma) {
            sp_advance(st)
        } else {
            Ok((peek_kind(st), st))
        };
        match stc {
            Err(_) => {},
            Ok(p1) => {
                lemma_ty_fuel(p1.1, (d1 - 1) as nat, (d2 - 1) as nat);
                match sp_ty_f(p1.1, (d1 - 1) as nat) {
                    Err(_) => {},
                    Ok(q) => {
                        lemma_subtypes_fuel(q.1, close, (d1 - 1) as nat, (d2 - 1) as nat);
                    },
                }
            },
        }
    }
}

/// The canonical forms agree with any sufficient fuel; packaged for the
/// executable rules, one per fuel-free form.
pub proof fn lemma_sum_unfuel(st: StreamV, d: nat)
    requires
        d >= 3 * st.toks.len() + 2,
    ensures
        sp_sum_f(st, d) == sp_sum(st),
        sp_sum(st) matches Ok(p) ==> p.1.toks.len() < st.toks.len(),
{
    lemma_sum_fuel(st, d, (3 * st.toks.len() + 2) as nat);
}

/// See `lemma_sum_unfuel`.
pub proof fn lemma_prod_unfuel(st: StreamV, d: nat)
    requires
        d >= 3 * st.toks.len() + 2,
    ensures
        sp_prod_f(st, d) == sp_prod(st),
        sp_prod(st) matches Ok(p) ==> p.1.toks.len() < st.toks.len(),
{
    lemma_prod_fuel(st, d, (3 * st.toks.len() + 2) as nat);
}

/// See `lemma_sum_unfuel`.
pub proof fn lemma_ty_unfuel(st: StreamV, d: nat)
    requires
        d >= 3 * st.toks.len() + 3,
    ensures
        sp_ty_f(st, d) == sp_ty(st),
        sp_ty(st) matches Ok(p) ==> p.1.toks.len() < st.toks.len(),
{
    lemma_ty_fuel(st, d, (3 * st.toks.len() + 3) as nat);
}

/// See `lemma_sum_unfuel`.
pub proof fn lemma_subtypes_unfuel(st: StreamV, close: Token, d: nat)
    requires
        d >= 3 * st.toks.len() + 4,
    ensures
        sp_subtypes_f(st, close, d) == sp_subtypes(st, close),
        sp_subtypes(st, close) matches Ok(p) ==> p.1.toks.len() < st.toks.len(),
{
    lemma_subtypes_fuel(st, close, d, (3 * st.toks.len() + 4) as nat);
}

} // verus!
