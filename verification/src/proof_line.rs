//! The lines of a proof: each is a formula or a Hoare triple.

use crate::error::RuleError;
use crate::formula::{Formula, FormulaView};
use crate::triple::{Triple, TripleView};
use vstd::prelude::*;
use vstd::std_specs::cmp::PartialEqSpecImpl;

verus! {

/// One line of a proof. A proof is a sequence of lines that its author keeps;
/// a line is read, never changed.
#[derive(Debug)]
pub enum ProofLine {
    /// A formula that stands on its own, such as a lemma.
    Formula(Formula),
    /// A Hoare triple.
    Triple(Triple),
}

/// The mathematical model of a [`ProofLine`].
pub enum ProofLineView {
    Formula(FormulaView),
    Triple(TripleView),
}

impl View for ProofLine {
    type V = ProofLineView;

    open spec fn view(&self) -> ProofLineView {
        match self {
            ProofLine::Formula(f) => ProofLineView::Formula(f@),
            ProofLine::Triple(t) => ProofLineView::Triple(t@),
        }
    }
}

impl ProofLineView {
    /// The line in infix notation: the formula, or the triple as `{P} C {Q}`.
    pub open spec fn infix(self) -> Seq<char> {
        match self {
            ProofLineView::Formula(f) => f.infix(),
            ProofLineView::Triple(t) => t.infix(),
        }
    }
}

impl ProofLine {
    /// The line that holds the triple a rule gave, or the error with which
    /// the rule failed.
    pub fn new_triple_from_rule(result: Result<Triple, RuleError>) -> (line: Result<
        ProofLine,
        RuleError,
    >)
        ensures
            line == match result {
                Ok(triple) => Ok::<ProofLine, RuleError>(ProofLine::Triple(triple)),
                Err(error) => Err::<ProofLine, RuleError>(error),
            },
    {
        match result {
            Ok(triple) => Ok(ProofLine::Triple(triple)),
            Err(error) => Err(error),
        }
    }

    /// The formula of the line, if the line holds one.
    pub fn get_formula(&self) -> (formula: Option<&Formula>)
        ensures
            formula == match self {
                ProofLine::Formula(f) => Some(f),
                ProofLine::Triple(_) => None::<&Formula>,
            },
    {
        match self {
            ProofLine::Formula(f) => Some(f),
            ProofLine::Triple(_) => None,
        }
    }

    /// The triple of the line, if the line holds one.
    pub fn get_triple(&self) -> (triple: Option<&Triple>)
        ensures
            triple == match self {
                ProofLine::Formula(_) => None::<&Triple>,
                ProofLine::Triple(t) => Some(t),
            },
    {
        match self {
            ProofLine::Formula(_) => None,
            ProofLine::Triple(t) => Some(t),
        }
    }

    /// Writes the line in infix notation: the formula, or the triple as
    /// `{P} C {Q}`.
    pub fn to_infix_notation(&self) -> (text: String)
        ensures
            text@ == self@.infix(),
    {
        match self {
            ProofLine::Formula(f) => f.to_infix_notation(),
            ProofLine::Triple(t) => t.to_infix_notation(),
        }
    }
}

impl Clone for ProofLine {
    /// A copy of the line.
    fn clone(&self) -> (copy: Self)
        ensures
            copy@ == self@,
    {
        match self {
            ProofLine::Formula(f) => ProofLine::Formula(f.clone()),
            ProofLine::Triple(t) => ProofLine::Triple(t.clone()),
        }
    }
}

impl PartialEq for ProofLine {
    /// Two lines are equal where both hold equal formulae or both hold equal
    /// triples.
    fn eq(&self, other: &Self) -> (equal: bool) {
        match (self, other) {
            (ProofLine::Formula(f), ProofLine::Formula(g)) => *f == *g,
            (ProofLine::Triple(t), ProofLine::Triple(u)) => *t == *u,
            _ => false,
        }
    }
}

impl PartialEqSpecImpl for ProofLine {
    open spec fn obeys_eq_spec() -> bool {
        true
    }

    open spec fn eq_spec(&self, other: &Self) -> bool {
        self@ == other@
    }
}

} // verus!
