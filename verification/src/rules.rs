//! The inference rules of Hoare logic: each one checks the shape of what it
//! is given and, where it fits, builds the triple that follows.
//!
//! Two formulae count as the same where their prefix notations are the same
//! text.

use crate::error::{Counterpart, RuleError, RuleErrorView, Side};
use crate::formula::{Formula, FormulaView};
use crate::text::{concat3, concat5};
use crate::triple::{Triple, TripleView};
use vstd::prelude::*;
use vstd::string::*;

verus! {

impl FormulaView {
    /// The formula under the negation, or the formula itself where it is no
    /// negation.
    pub open spec fn unnegated(self) -> FormulaView {
        match self {
            FormulaView::Negation(f) => *f,
            _ => self,
        }
    }
}

/// Composition: from `{P} S {Q}` and `{Q} T {R}` follows `{P} S;T {R}`.
pub open spec fn composition(left: TripleView, right: TripleView) -> Result<
    TripleView,
    RuleErrorView,
> {
    let mid_left = left.postcondition.prefix();
    let mid_right = right.precondition.prefix();
    if mid_left == mid_right {
        Ok(
            TripleView {
                precondition: left.precondition,
                command: left.command + ";"@ + right.command,
                postcondition: right.postcondition,
            },
        )
    } else {
        Err(RuleErrorView::MidconditionMismatch(mid_left, mid_right))
    }
}

/// Condition: from `{B ∧ P} S {Q}` and `{¬B ∧ P} T {Q}` follows
/// `{P} if B then S else T endif {Q}`.
pub open spec fn condition(left: TripleView, right: TripleView) -> Result<
    TripleView,
    RuleErrorView,
> {
    match (left.precondition, right.precondition) {
        (FormulaView::Conjunction(b, p), FormulaView::Conjunction(not_b, _)) => {
            if !(*not_b is Negation && not_b.unnegated().prefix() == b.prefix()) {
                Err(RuleErrorView::ConditionMismatch(b.prefix(), not_b.unnegated().prefix()))
            } else if left.postcondition.prefix() != right.postcondition.prefix() {
                Err(
                    RuleErrorView::PostconditionMismatch(
                        Counterpart::Postcondition,
                        left.postcondition.prefix(),
                        right.postcondition.prefix(),
                    ),
                )
            } else {
                Ok(
                    TripleView {
                        precondition: *p,
                        command: "if "@ + b.prefix() + " then "@ + left.command + " else "@
                            + right.command + " endif"@,
                        postcondition: left.postcondition,
                    },
                )
            }
        },
        _ => Err(RuleErrorView::NotConjunction),
    }
}

/// Consequence: from `A → P`, `{P} S {Q}` and `Q → C` follows `{A} S {C}`.
pub open spec fn consequence(left: FormulaView, middle: TripleView, right: FormulaView) -> Result<
    TripleView,
    RuleErrorView,
> {
    match (left, right) {
        (FormulaView::Implication(stronger, pre), FormulaView::Implication(post, weaker)) => {
            if pre.prefix() != middle.precondition.prefix() {
                Err(
                    RuleErrorView::PreconditionMismatch(
                        left.prefix(),
                        middle.precondition.prefix(),
                    ),
                )
            } else if post.prefix() != middle.postcondition.prefix() {
                Err(
                    RuleErrorView::PostconditionMismatch(
                        Counterpart::Antecedent,
                        right.prefix(),
                        middle.postcondition.prefix(),
                    ),
                )
            } else {
                Ok(
                    TripleView {
                        precondition: *stronger,
                        command: middle.command,
                        postcondition: *weaker,
                    },
                )
            }
        },
        (FormulaView::Implication(_, _), _) => Err(
            RuleErrorView::NotImplication(Side::Right, right.prefix(), right.kind()),
        ),
        _ => Err(RuleErrorView::NotImplication(Side::Left, left.prefix(), left.kind())),
    }
}

/// While: from `{P ∧ B} S {P}` follows `{P} while B do S done {¬B ∧ P}`.
pub open spec fn while_loop(input: TripleView) -> Result<TripleView, RuleErrorView> {
    match input.precondition {
        FormulaView::Conjunction(p, b) => {
            if p.prefix() != input.postcondition.prefix() {
                Err(
                    RuleErrorView::InvariantNotPreserved(
                        p.prefix(),
                        input.postcondition.prefix(),
                    ),
                )
            } else {
                Ok(
                    TripleView {
                        precondition: input.postcondition,
                        command: "while "@ + b.prefix() + " do "@ + input.command + " done"@,
                        postcondition: FormulaView::Conjunction(
                            Box::new(FormulaView::Negation(b)),
                            Box::new(input.postcondition),
                        ),
                    },
                )
            }
        },
        _ => Err(RuleErrorView::NotConjunction),
    }
}

/// The rule of composition: the postcondition of `left` has to be the
/// precondition of `right`; the commands are joined by `;`.
pub fn composition_rule(left: &Triple, right: &Triple) -> (result: Result<Triple, RuleError>)
    ensures
        match result {
            Ok(t) => composition(left@, right@) == Ok::<TripleView, RuleErrorView>(t@),
            Err(e) => composition(left@, right@) == Err::<TripleView, RuleErrorView>(e@),
        },
{
    let mid_left = left.postcondition.to_prefix_notation();
    let mid_right = right.precondition.to_prefix_notation();
    if !(mid_left == mid_right) {
        return Err(RuleError::MidconditionMismatch(mid_left, mid_right));
    }
    Ok(
        Triple {
            precondition: left.precondition.clone(),
            command: concat3(left.command.as_str(), ";", right.command.as_str()),
            postcondition: right.postcondition.clone(),
        },
    )
}

/// The condition rule: both preconditions have to be conjunctions, the first
/// conjunct of the right one the negation of the first conjunct of the left
/// one, and the postconditions the same.
pub fn condition_rule(left: &Triple, right: &Triple) -> (result: Result<Triple, RuleError>)
    ensures
        match result {
            Ok(t) => condition(left@, right@) == Ok::<TripleView, RuleErrorView>(t@),
            Err(e) => condition(left@, right@) == Err::<TripleView, RuleErrorView>(e@),
        },
{
    let (b, p, not_b) = match (&left.precondition, &right.precondition) {
        (Formula::Conjunction(b, p), Formula::Conjunction(not_b, _)) => (b, p, not_b),
        _ => {
            return Err(RuleError::NotConjunction);
        },
    };
    let condition = b.to_prefix_notation();
    let (negated, other) = match &**not_b {
        Formula::Negation(inner) => (true, inner.to_prefix_notation()),
        whole => (false, whole.to_prefix_notation()),
    };
    assert(other@ == (**not_b)@.unnegated().prefix());
    if !(negated && other == condition) {
        return Err(RuleError::ConditionMismatch(condition, other));
    }
    let post_left = left.postcondition.to_prefix_notation();
    let post_right = right.postcondition.to_prefix_notation();
    if !(post_left == post_right) {
        return Err(
            RuleError::PostconditionMismatch(Counterpart::Postcondition, post_left, post_right),
        );
    }
    let head = concat3("if ", condition.as_str(), " then ");
    let command = concat5(
        head.as_str(),
        left.command.as_str(),
        " else ",
        right.command.as_str(),
        " endif",
    );
    let result = Triple {
        precondition: (**p).clone(),
        command,
        postcondition: left.postcondition.clone(),
    };
    assert(result@.command =~= "if "@ + b@.prefix() + " then "@ + left@.command + " else "@
        + right@.command + " endif"@);
    Ok(result)
}

/// The consequence rule: both formulae have to be implications, the
/// consequent of `left` the precondition of `middle`, and the antecedent of
/// `right` its postcondition.
pub fn consequence_rule(left: &Formula, middle: &Triple, right: &Formula) -> (result: Result<
    Triple,
    RuleError,
>)
    ensures
        match result {
            Ok(t) => consequence(left@, middle@, right@) == Ok::<TripleView, RuleErrorView>(t@),
            Err(e) => consequence(left@, middle@, right@) == Err::<TripleView, RuleErrorView>(e@),
        },
{
    let (stronger, pre) = match left {
        Formula::Implication(stronger, pre) => (stronger, pre),
        _ => {
            return Err(
                RuleError::NotImplication(Side::Left, left.to_prefix_notation(), left.kind()),
            );
        },
    };
    let (post, weaker) = match right {
        Formula::Implication(post, weaker) => (post, weaker),
        _ => {
            return Err(
                RuleError::NotImplication(Side::Right, right.to_prefix_notation(), right.kind()),
            );
        },
    };
    let precondition = middle.precondition.to_prefix_notation();
    if !(pre.to_prefix_notation() == precondition) {
        return Err(RuleError::PreconditionMismatch(left.to_prefix_notation(), precondition));
    }
    let postcondition = middle.postcondition.to_prefix_notation();
    if !(post.to_prefix_notation() == postcondition) {
        return Err(
            RuleError::PostconditionMismatch(
                Counterpart::Antecedent,
                right.to_prefix_notation(),
                postcondition,
            ),
        );
    }
    Ok(
        Triple {
            precondition: (**stronger).clone(),
            command: middle.command.clone(),
            postcondition: (**weaker).clone(),
        },
    )
}

/// The while rule: the precondition has to be a conjunction of the invariant
/// and the loop condition, and the invariant has to be the postcondition.
pub fn while_rule(input: &Triple) -> (result: Result<Triple, RuleError>)
    ensures
        match result {
            Ok(t) => while_loop(input@) == Ok::<TripleView, RuleErrorView>(t@),
            Err(e) => while_loop(input@) == Err::<TripleView, RuleErrorView>(e@),
        },
{
    let (p, b) = match &input.precondition {
        Formula::Conjunction(p, b) => (p, b),
        _ => {
            return Err(RuleError::NotConjunction);
        },
    };
    let kept = p.to_prefix_notation();
    let postcondition = input.postcondition.to_prefix_notation();
    if !(kept == postcondition) {
        return Err(RuleError::InvariantNotPreserved(kept, postcondition));
    }
    let command = concat5(
        "while ",
        b.to_prefix_notation().as_str(),
        " do ",
        input.command.as_str(),
        " done",
    );
    let exit = Formula::Negation(Box::new((**b).clone()));
    assert(exit@ == FormulaView::Negation(Box::new((**b)@)));
    Ok(
        Triple {
            precondition: input.postcondition.clone(),
            command,
            postcondition: Formula::Conjunction(Box::new(exit), Box::new(input.postcondition.clone())),
        },
    )
}

} // verus!
