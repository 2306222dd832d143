//! The abstract syntax tree and the structured parse error.
//!
//! `ParseError` carries the literal text of the token present when the
//! deepest failure occurred and an ordered trace of rule contexts, appended
//! innermost-first as the error travels up through the grammar rules.

use vstd::prelude::*;
use vstd::string::StringExecFns;

pub mod def;
pub mod expr;
pub mod func;
pub mod grammar;
pub mod ident;
pub mod prod;
pub mod subtypes;
pub mod sum;
pub mod ty;

verus! {

/// Abstract value of a `ParseError`: the offending token text and the
/// innermost-first trace of rule contexts.
#[verifier::ext_equal]
pub struct ErrV {
    pub tok: Seq<char>,
    pub trace: Seq<Seq<char>>,
}

/// The error a failed lexing step produces: the unmatched slice under the
/// single context `unrecognized token`.
pub open spec fn lex_error_v(slice: Seq<char>) -> ErrV {
    ErrV { tok: slice, trace: seq!["unrecognized token"@] }
}

/// A structured syntactic (or lexical) failure: the text of the offending
/// token and the grammar rules that were active, innermost first.
#[derive(Debug, PartialEq, Eq)]
pub struct ParseError {
    trace: Vec<&'static str>,
    tok_string: String,
}

impl View for ParseError {
    type V = ErrV;

    closed spec fn view(&self) -> ErrV {
        ErrV {
            tok: self.tok_string@,
            trace: self.trace@.map_values(|c: &'static str| c@),
        }
    }
}

impl ParseError {
    /// A fresh error: `cause` is the deepest context, `tok_string` the text
    /// of the token at which the failure was noticed.
    pub fn new(tok_string: String, cause: &'static str) -> (r: Self)
        ensures
            r@ == (ErrV { tok: tok_string@, trace: seq![cause@] }),
    {
        let r = Self { trace: vec![cause], tok_string };
        proof {
            assert(r@.trace =~= seq![cause@]);
            assert(r@ =~= (ErrV { tok: tok_string@, trace: seq![cause@] }));
        }
        r
    }

    /// A fresh error already wrapped in `Err`, for direct return from a rule.
    pub fn err<T>(tok_string: String, cause: &'static str) -> (r: Result<T, Self>)
        ensures
            r matches Err(e) && e@ == (ErrV { tok: tok_string@, trace: seq![cause@] }),
    {
        Err(Self::new(tok_string, cause))
    }

    /// Appends one enclosing rule context to the trace and returns the
    /// extended error.
    pub fn context(self, description: &'static str) -> (r: Self)
        ensures
            r@ == (ErrV { tok: self@.tok, trace: self@.trace.push(description@) }),
    {
        let ghost old_self = self;
        let mut this = self;
        this.trace.push(description);
        proof {
            assert(this@.trace =~= old_self@.trace.push(description@));
            assert(this@ =~= (ErrV { tok: old_self@.tok, trace: old_self@.trace.push(description@) }));
        }
        this
    }
}

/// The rendering of the contexts after the first: each on its own line,
/// introduced by `-> while parsing `.
pub open spec fn trace_msg(tr: Seq<Seq<char>>, i: int) -> Seq<char>
    decreases tr.len() - i,
{
    if i < 0 || i >= tr.len() {
        Seq::empty()
    } else {
        "\n-> while parsing "@ + tr[i] + trace_msg(tr, i + 1)
    }
}

/// The full rendering of an error: the offending token text, then the
/// deepest cause first and each enclosing context on its own line, giving an
/// inside-out backtrace of the grammar stack at the point of failure.
pub open spec fn err_msg(e: ErrV) -> Seq<char> {
    "error encountered at token \""@ + e.tok + "\" while parsing "@ + (if e.trace.len() == 0 {
        Seq::<char>::empty()
    } else {
        e.trace[0] + trace_msg(e.trace, 1)
    }) + "\n"@
}

impl ParseError {
    /// The human-readable rendering of this error.
    pub fn message(&self) -> (r: String)
        ensures
            r@ == err_msg(self@),
    {
        let mut acc = String::from_str("error encountered at token \"");
        acc.append(self.tok_string.as_str());
        acc.append("\" while parsing ");
        if self.trace.len() > 0 {
            acc.append(self.trace[0]);
            proof {
                assert(acc@ + trace_msg(self@.trace, 1) + "\n"@ =~= err_msg(self@));
            }
            let mut i: usize = 1;
            while i < self.trace.len()
                invariant
                    1 <= i <= self.trace.len(),
                    self.trace.len() == self@.trace.len(),
                    acc@ + trace_msg(self@.trace, i as int) + "\n"@ == err_msg(self@),
                decreases self.trace.len() - i,
            {
                let ghost acc0 = acc@;
                acc.append("\n-> while parsing ");
                acc.append(self.trace[i]);
                proof {
                    assert(acc@ =~= acc0 + "\n-> while parsing "@ + self@.trace[i as int]);
                    assert(acc@ + trace_msg(self@.trace, i as int + 1) + "\n"@ =~= acc0
                        + trace_msg(self@.trace, i as int) + "\n"@);
                }
                i = i + 1;
            }
            proof {
                assert(trace_msg(self@.trace, i as int) =~= Seq::<char>::empty());
            }
        }
        acc.append("\n");
        proof {
            assert(acc@ =~= err_msg(self@));
        }
        acc
    }
}

/// Builder-style attachment of a rule context to the error inside a parse
/// `Result`, leaving a success untouched.
pub trait ParseResultExt: Sized {
    fn context(self, description: &'static str) -> Self;
}

impl<T> ParseResultExt for Result<T, ParseError> {
    fn context(self, description: &'static str) -> Self {
        match self {
            Ok(v) => Ok(v),
            Err(e) => Err(e.context(description)),
        }
    }
}

} // verus!
