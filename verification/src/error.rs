//! Why a rule does not apply, and how that is told to a reader.

use crate::formula::Kind;
use crate::text::{concat4, concat5};
use vstd::prelude::*;
use vstd::std_specs::cmp::PartialEqSpecImpl;
use vstd::string::*;

verus! {

/// The side of the triple on which an implication stands in the consequence
/// rule.
#[derive(Debug, Clone, Copy, PartialEq, Eq, Structural)]
pub enum Side {
    Left,
    Right,
}

/// What the postcondition of a triple was held against.
#[derive(Debug, Clone, Copy, PartialEq, Eq, Structural)]
pub enum Counterpart {
    /// The postcondition of the other triple, in the condition rule.
    Postcondition,
    /// The antecedent of the right implication, in the consequence rule.
    Antecedent,
}

/// Why a rule does not apply to what it was given. The texts are formulae in
/// prefix notation.
#[derive(Debug)]
pub enum RuleError {
    /// Composition: the postcondition of the left triple (first text) is not
    /// the precondition of the right triple (second text).
    MidconditionMismatch(String, String),
    /// A precondition that has to be a conjunction is none.
    NotConjunction,
    /// Condition: the first conjunct of the right precondition is not the
    /// negation of the first conjunct of the left precondition (first text).
    /// The second text is the right one without its negation sign, or whole
    /// where it is no negation.
    ConditionMismatch(String, String),
    /// Condition: the postcondition of the left triple (first text) is not
    /// that of the right triple (second text). Consequence: the antecedent of
    /// the right implication (first text: the whole implication) is not the
    /// postcondition of the triple (second text).
    PostconditionMismatch(Counterpart, String, String),
    /// Consequence: the consequent of the left implication (first text: the
    /// whole implication) is not the precondition of the triple (second
    /// text).
    PreconditionMismatch(String, String),
    /// Consequence: the formula on the given side (the text) is no
    /// implication but of the given variant.
    NotImplication(Side, String, Kind),
    /// While: the first conjunct of the precondition (first text) is not the
    /// postcondition (second text).
    InvariantNotPreserved(String, String),
}

/// The mathematical model of a [`RuleError`].
pub enum RuleErrorView {
    MidconditionMismatch(Seq<char>, Seq<char>),
    NotConjunction,
    ConditionMismatch(Seq<char>, Seq<char>),
    PostconditionMismatch(Counterpart, Seq<char>, Seq<char>),
    PreconditionMismatch(Seq<char>, Seq<char>),
    NotImplication(Side, Seq<char>, Kind),
    InvariantNotPreserved(Seq<char>, Seq<char>),
}

impl View for RuleError {
    type V = RuleErrorView;

    open spec fn view(&self) -> RuleErrorView {
        match self {
            RuleError::MidconditionMismatch(a, b) => RuleErrorView::MidconditionMismatch(a@, b@),
            RuleError::NotConjunction => RuleErrorView::NotConjunction,
            RuleError::ConditionMismatch(a, b) => RuleErrorView::ConditionMismatch(a@, b@),
            RuleError::PostconditionMismatch(c, a, b) => RuleErrorView::PostconditionMismatch(
                *c,
                a@,
                b@,
            ),
            RuleError::PreconditionMismatch(a, b) => RuleErrorView::PreconditionMismatch(a@, b@),
            RuleError::NotImplication(side, a, kind) => RuleErrorView::NotImplication(
                *side,
                a@,
                *kind,
            ),
            RuleError::InvariantNotPreserved(a, b) => RuleErrorView::InvariantNotPreserved(a@, b@),
        }
    }
}

impl Clone for RuleError {
    /// A copy of the error.
    fn clone(&self) -> (copy: Self)
        ensures
            copy@ == self@,
    {
        match self {
            RuleError::MidconditionMismatch(a, b) => RuleError::MidconditionMismatch(
                a.clone(),
                b.clone(),
            ),
            RuleError::NotConjunction => RuleError::NotConjunction,
            RuleError::ConditionMismatch(a, b) => RuleError::ConditionMismatch(
                a.clone(),
                b.clone(),
            ),
            RuleError::PostconditionMismatch(c, a, b) => RuleError::PostconditionMismatch(
                *c,
                a.clone(),
                b.clone(),
            ),
            RuleError::PreconditionMismatch(a, b) => RuleError::PreconditionMismatch(
                a.clone(),
                b.clone(),
            ),
            RuleError::NotImplication(side, a, kind) => RuleError::NotImplication(
                *side,
                a.clone(),
                *kind,
            ),
            RuleError::InvariantNotPreserved(a, b) => RuleError::InvariantNotPreserved(
                a.clone(),
                b.clone(),
            ),
        }
    }
}

impl PartialEq for RuleError {
    /// Two errors are equal where they are of the same variant and hold the
    /// same texts and tags.
    fn eq(&self, other: &Self) -> (equal: bool) {
        match (self, other) {
            (RuleError::MidconditionMismatch(a, b), RuleError::MidconditionMismatch(c, d)) => *a
                == *c && *b == *d,
            (RuleError::NotConjunction, RuleError::NotConjunction) => true,
            (RuleError::ConditionMismatch(a, b), RuleError::ConditionMismatch(c, d)) => *a == *c
                && *b == *d,
            (
                RuleError::PostconditionMismatch(x, a, b),
                RuleError::PostconditionMismatch(y, c, d),
            ) => *x == *y && *a == *c && *b == *d,
            (RuleError::PreconditionMismatch(a, b), RuleError::PreconditionMismatch(c, d)) => *a
                == *c && *b == *d,
            (RuleError::NotImplication(s, a, k), RuleError::NotImplication(t, c, l)) => *s == *t
                && *a == *c && *k == *l,
            (RuleError::InvariantNotPreserved(a, b), RuleError::InvariantNotPreserved(c, d)) => *a
                == *c && *b == *d,
            _ => false,
        }
    }
}

impl PartialEqSpecImpl for RuleError {
    open spec fn obeys_eq_spec() -> bool {
        true
    }

    open spec fn eq_spec(&self, other: &Self) -> bool {
        self@ == other@
    }
}

/// What `{:?}` writes for a string that holds `text`: the text between double
/// quotes, with escapes for the characters that cannot stand there as they
/// are.
pub uninterp spec fn debug_text(text: Seq<char>) -> Seq<char>;

/// `format!("{:?}", text)`, that is `<str as Debug>::fmt`: the result is a
/// function of the text alone, named [`debug_text`]. Nothing more is claimed
/// of it.
#[verifier::external_body]
fn debug_string(text: &str) -> (shown: String)
    ensures
        shown@ == debug_text(text@),
{
    format!("{:?}", text)
}

impl RuleErrorView {
    /// The message with `first` and `second` in the places of the two things
    /// it shows.
    pub open spec fn message_around(self, first: Seq<char>, second: Seq<char>) -> Seq<char> {
        match self {
            RuleErrorView::MidconditionMismatch(_, _) =>
                "The input triples do not have matching midcondition\nleft postcondition: "@
                + first + "\n right precondition: "@ + second,
            RuleErrorView::NotConjunction =>
                "The input triples do not have `Conjunction` formulae as precondition"@,
            RuleErrorView::ConditionMismatch(_, _) => "The input triples do not match negated "@
                + first + " and unnegated "@ + second + " conditions"@,
            RuleErrorView::PostconditionMismatch(Counterpart::Postcondition, _, _) =>
                "The input triples do not have identical postconditions\nleft: "@ + first
                + ", right: "@ + second,
            RuleErrorView::PostconditionMismatch(Counterpart::Antecedent, _, _) =>
                "The right `Formula` "@ + first
                + " does not match the postcondition of the middle `Triple` "@ + second,
            RuleErrorView::PreconditionMismatch(_, _) => "The left `Formula` "@ + first
                + " does not match the precondition of the middle `Triple` "@ + second,
            RuleErrorView::NotImplication(Side::Left, _, _) => "The left `Formula` "@ + first
                + " is not an Implication type Formula. Left type: "@ + second,
            RuleErrorView::NotImplication(Side::Right, _, _) => "The right `Formula` "@ + first
                + " is not an Implication type Formula. Right type: "@ + second,
            RuleErrorView::InvariantNotPreserved(_, _) =>
                "The loop invariant is not preserved\nprecondition (P∧B): "@ + first
                + ", postcondition (P): "@ + second,
        }
    }

    /// The first thing the message shows, as it stands there.
    pub open spec fn first_shown(self) -> Seq<char> {
        match self {
            RuleErrorView::MidconditionMismatch(a, _) => debug_text(a),
            RuleErrorView::NotConjunction => Seq::empty(),
            RuleErrorView::ConditionMismatch(a, _) => debug_text(a),
            RuleErrorView::PostconditionMismatch(Counterpart::Postcondition, a, _) => a,
            RuleErrorView::PostconditionMismatch(Counterpart::Antecedent, a, _) => debug_text(a),
            RuleErrorView::PreconditionMismatch(a, _) => debug_text(a),
            RuleErrorView::NotImplication(_, a, _) => debug_text(a),
            RuleErrorView::InvariantNotPreserved(a, _) => debug_text(a),
        }
    }

    /// The second thing the message shows, as it stands there.
    pub open spec fn second_shown(self) -> Seq<char> {
        match self {
            RuleErrorView::MidconditionMismatch(_, b) => debug_text(b),
            RuleErrorView::NotConjunction => Seq::empty(),
            RuleErrorView::ConditionMismatch(_, b) => debug_text(b),
            RuleErrorView::PostconditionMismatch(Counterpart::Postcondition, _, b) => b,
            RuleErrorView::PostconditionMismatch(Counterpart::Antecedent, _, b) => debug_text(b),
            RuleErrorView::PreconditionMismatch(_, b) => debug_text(b),
            RuleErrorView::NotImplication(_, _, kind) => debug_text(kind.name()),
            RuleErrorView::InvariantNotPreserved(_, b) => debug_text(b),
        }
    }

    /// The message that tells a reader of the error.
    pub open spec fn message(self) -> Seq<char> {
        self.message_around(self.first_shown(), self.second_shown())
    }
}

impl RuleError {
    /// The message with `first` and `second` in the places of the two things
    /// it shows.
    pub fn message_around(&self, first: &str, second: &str) -> (message: String)
        ensures
            message@ == self@.message_around(first@, second@),
    {
        match self {
            RuleError::MidconditionMismatch(_, _) => concat4(
                "The input triples do not have matching midcondition\nleft postcondition: ",
                first,
                "\n right precondition: ",
                second,
            ),
            RuleError::NotConjunction => String::from_str(
                "The input triples do not have `Conjunction` formulae as precondition",
            ),
            RuleError::ConditionMismatch(_, _) => concat5(
                "The input triples do not match negated ",
                first,
                " and unnegated ",
                second,
                " conditions",
            ),
            RuleError::PostconditionMismatch(Counterpart::Postcondition, _, _) => concat4(
                "The input triples do not have identical postconditions\nleft: ",
                first,
                ", right: ",
                second,
            ),
            RuleError::PostconditionMismatch(Counterpart::Antecedent, _, _) => concat4(
                "The right `Formula` ",
                first,
                " does not match the postcondition of the middle `Triple` ",
                second,
            ),
            RuleError::PreconditionMismatch(_, _) => concat4(
                "The left `Formula` ",
                first,
                " does not match the precondition of the middle `Triple` ",
                second,
            ),
            RuleError::NotImplication(Side::Left, _, _) => concat4(
                "The left `Formula` ",
                first,
                " is not an Implication type Formula. Left type: ",
                second,
            ),
            RuleError::NotImplication(Side::Right, _, _) => concat4(
                "The right `Formula` ",
                first,
                " is not an Implication type Formula. Right type: ",
                second,
            ),
            RuleError::InvariantNotPreserved(_, _) => concat4(
                "The loop invariant is not preserved\nprecondition (P∧B): ",
                first,
                ", postcondition (P): ",
                second,
            ),
        }
    }

    /// The message that tells a reader of the error.
    pub fn message(&self) -> (message: String)
        ensures
            message@ == self@.message(),
    {
        match self {
            RuleError::NotConjunction => self.message_around("", ""),
            RuleError::PostconditionMismatch(Counterpart::Postcondition, a, b) => {
                self.message_around(a.as_str(), b.as_str())
            },
            RuleError::NotImplication(_, a, kind) => {
                let first = debug_string(a.as_str());
                let second = debug_string(kind.to_name().as_str());
                self.message_around(first.as_str(), second.as_str())
            },
            RuleError::MidconditionMismatch(a, b)
            | RuleError::ConditionMismatch(a, b)
            | RuleError::PostconditionMismatch(Counterpart::Antecedent, a, b)
            | RuleError::PreconditionMismatch(a, b)
            | RuleError::InvariantNotPreserved(a, b) => {
                let first = debug_string(a.as_str());
                let second = debug_string(b.as_str());
                self.message_around(first.as_str(), second.as_str())
            },
        }
    }
}

} // verus!
