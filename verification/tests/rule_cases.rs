use hoare_logic::{
    composition_rule, condition_rule, consequence_rule, while_rule, Counterpart, Formula, Kind,
    RuleError, Side, Triple,
};

fn triple(precondition: &str, command: &str, postcondition: &str) -> Triple {
    Triple::new(precondition, command, postcondition).unwrap()
}

fn formula(text: &str) -> Formula {
    Formula::new(text).unwrap()
}

fn text(s: &str) -> String {
    s.to_string()
}

#[test]
fn composition_joins_the_commands_and_keeps_the_outer_conditions() {
    let left = triple("= x+1 43", "y≔x+1", "= y 43");
    let right = triple("= y 43", "z≔y", "= z 43");
    let result = composition_rule(&left, &right).unwrap();
    assert_eq!(result.precondition, left.precondition);
    assert_eq!(result.command, "y≔x+1;z≔y");
    assert_eq!(result.postcondition, right.postcondition);
}

#[test]
fn composition_reports_both_midconditions() {
    let left = triple("= x+1 43", "y≔x+1", "= y 43");
    let right = triple("= z 44", "w≔z", "= w 44");
    assert_eq!(
        composition_rule(&left, &right),
        Err(RuleError::MidconditionMismatch(text("= y 43"), text("= z 44")))
    );
    assert_eq!(
        composition_rule(&left, &right).err().unwrap().message(),
        "The input triples do not have matching midcondition\nleft postcondition: \"= y 43\"\n right precondition: \"= z 44\""
    );
}

#[test]
fn composition_compares_the_texts_of_the_midconditions() {
    let left = Triple {
        precondition: formula("P"),
        command: text("S"),
        postcondition: Formula::Term(text("∧ A B")),
    };
    let right = triple("∧ A B", "T", "R");
    let result = composition_rule(&left, &right).unwrap();
    assert_eq!(result, triple("P", "S;T", "R"));
}

#[test]
fn composition_is_associative() {
    let a = triple("= x+1 43", "y≔x+1", "= y 43");
    let b = triple("= y 43", "z≔y", "= z 43");
    let c = triple("= z 43", "w≔z", "= w 43");
    let left_first = composition_rule(&composition_rule(&a, &b).unwrap(), &c).unwrap();
    let right_first = composition_rule(&a, &composition_rule(&b, &c).unwrap()).unwrap();
    assert_eq!(left_first, right_first);
    assert_eq!(left_first.command, "y≔x+1;z≔y;w≔z");
}

#[test]
fn rules_give_triples_that_read_back() {
    let results = [
        composition_rule(&triple("P", "S", "∧ A B"), &triple("∧ A B", "T", "∀ x R")).unwrap(),
        condition_rule(&triple("∧ < x 0 P", "S", "Q"), &triple("∧ ¬ < x 0 P", "T", "Q")).unwrap(),
        consequence_rule(&formula("→ A P"), &triple("P", "S", "Q"), &formula("→ Q ¬ C")).unwrap(),
        while_rule(&triple("∧ P ∨ B C", "S", "P")).unwrap(),
    ];
    for result in results {
        let read = Triple::new(
            &result.precondition.to_prefix_notation(),
            &result.command,
            &result.postcondition.to_prefix_notation(),
        );
        assert_eq!(read, Ok(result));
    }
}

#[test]
fn composition_does_not_change_what_it_is_given() {
    let left = triple("P", "S", "Q");
    let right = triple("Q", "T", "R");
    let (left_before, right_before) = (left.clone(), right.clone());
    let _ = composition_rule(&left, &right);
    assert_eq!(left, left_before);
    assert_eq!(right, right_before);
}

#[test]
fn condition_builds_the_branch() {
    let left = triple("∧ < x 0 = y 1", "x≔0-x", "< 0 x+1");
    let right = triple("∧ ¬ < x 0 = y 1", "x≔x", "< 0 x+1");
    let result = condition_rule(&left, &right).unwrap();
    assert_eq!(result, triple("= y 1", "if < x 0 then x≔0-x else x≔x endif", "< 0 x+1"));
    assert_eq!(result.command, "if < x 0 then x≔0-x else x≔x endif");
}

#[test]
fn condition_needs_two_conjunctions() {
    let conjunction = triple("∧ B P", "S", "Q");
    let negated = triple("∧ ¬ B P", "T", "Q");
    for other in ["P", "¬ B", "∨ B P", "→ B P", "= B P", "< B P", "∀ B P", "∃ B P"] {
        let plain = triple(other, "S", "Q");
        assert_eq!(condition_rule(&plain, &negated), Err(RuleError::NotConjunction));
        assert_eq!(condition_rule(&conjunction, &plain), Err(RuleError::NotConjunction));
    }
}

#[test]
fn condition_needs_the_negation_on_the_right() {
    let left = triple("∧ B P", "S", "Q");
    assert_eq!(
        condition_rule(&left, &triple("∧ ¬ C P", "T", "Q")),
        Err(RuleError::ConditionMismatch(text("B"), text("C")))
    );
    assert_eq!(
        condition_rule(&left, &triple("∧ B P", "T", "Q")),
        Err(RuleError::ConditionMismatch(text("B"), text("B")))
    );
    assert_eq!(
        condition_rule(&left, &triple("∧ ¬ ¬ B P", "T", "Q")),
        Err(RuleError::ConditionMismatch(text("B"), text("¬ B")))
    );
    assert_eq!(
        condition_rule(&triple("∧ ¬ B P", "S", "Q"), &left),
        Err(RuleError::ConditionMismatch(text("¬ B"), text("B")))
    );
}

#[test]
fn condition_strips_one_negation_whatever_its_length_in_bytes() {
    let left = triple("∧ ∀ x = x x P", "S", "Q");
    let right = triple("∧ ¬ ∀ x = x x P", "T", "Q");
    assert_eq!(
        condition_rule(&left, &right).unwrap(),
        triple("P", "if ∀ x = x x then S else T endif", "Q")
    );
}

#[test]
fn condition_takes_a_negation_node_not_a_term_that_starts_like_one() {
    let left = triple("∧ B P", "S", "Q");
    let right = Triple {
        precondition: Formula::Conjunction(
            Box::new(Formula::Term(text("¬ B"))),
            Box::new(Formula::Term(text("P"))),
        ),
        command: text("T"),
        postcondition: formula("Q"),
    };
    assert_eq!(
        condition_rule(&left, &right),
        Err(RuleError::ConditionMismatch(text("B"), text("¬ B")))
    );
}

#[test]
fn condition_checks_the_condition_before_the_postconditions() {
    let left = triple("∧ B P", "S", "Q1");
    let right = triple("∧ ¬ C P", "T", "Q2");
    assert_eq!(
        condition_rule(&left, &right),
        Err(RuleError::ConditionMismatch(text("B"), text("C")))
    );
    let right = triple("∧ ¬ B P", "T", "Q2");
    assert_eq!(
        condition_rule(&left, &right),
        Err(RuleError::PostconditionMismatch(Counterpart::Postcondition, text("Q1"), text("Q2")))
    );
}

#[test]
fn consequence_replaces_both_conditions() {
    let lemma = formula("→ ⊤ = x x+y*0");
    let middle = triple("= x x+y*0", "r≔x", "= x r+y*0");
    let same = formula("→ = x r+y*0 = x r+y*0");
    assert_eq!(
        consequence_rule(&lemma, &middle, &same).unwrap(),
        triple("⊤", "r≔x", "= x r+y*0")
    );
}

#[test]
fn consequence_reports_each_failure() {
    let middle = triple("P2", "S", "Q2");
    assert_eq!(
        consequence_rule(&formula("∧ P1 P2"), &middle, &formula("→ Q2 Q1")),
        Err(RuleError::NotImplication(Side::Left, text("∧ P1 P2"), Kind::Conjunction))
    );
    assert_eq!(
        consequence_rule(&formula("→ P1 P2"), &middle, &formula("¬ Q1")),
        Err(RuleError::NotImplication(Side::Right, text("¬ Q1"), Kind::Negation))
    );
    assert_eq!(
        consequence_rule(&formula("P1"), &middle, &formula("Q1")),
        Err(RuleError::NotImplication(Side::Left, text("P1"), Kind::Term))
    );
    assert_eq!(
        consequence_rule(&formula("→ P1 P3"), &middle, &formula("→ Q2 Q1")),
        Err(RuleError::PreconditionMismatch(text("→ P1 P3"), text("P2")))
    );
    assert_eq!(
        consequence_rule(&formula("→ P1 P2"), &middle, &formula("→ Q3 Q1")),
        Err(RuleError::PostconditionMismatch(Counterpart::Antecedent, text("→ Q3 Q1"), text("Q2")))
    );
    assert_eq!(
        consequence_rule(&formula("→ P1 P3"), &middle, &formula("→ Q3 Q1")),
        Err(RuleError::PreconditionMismatch(text("→ P1 P3"), text("P2")))
    );
}

#[test]
fn while_builds_the_loop() {
    let body = triple("∧ = x r+y*q ∨ < y r = y r", "r≔r-y;q≔1+q", "= x r+y*q");
    let result = while_rule(&body).unwrap();
    assert_eq!(result.precondition, formula("= x r+y*q"));
    assert_eq!(result.command, "while ∨ < y r = y r do r≔r-y;q≔1+q done");
    assert_eq!(result.postcondition, formula("∧ ¬ ∨ < y r = y r = x r+y*q"));
    assert_eq!(
        result,
        triple(
            "= x r+y*q",
            "while ∨ < y r = y r do r≔r-y;q≔1+q done",
            "∧ ¬ ∨ < y r = y r = x r+y*q"
        )
    );
}

#[test]
fn while_reports_the_invariant_and_the_postcondition() {
    assert_eq!(
        while_rule(&triple("∧ P B", "S", "Q")),
        Err(RuleError::InvariantNotPreserved(text("P"), text("Q")))
    );
    assert_eq!(
        while_rule(&triple("∧ ∧ A B C", "S", "∧ B A")),
        Err(RuleError::InvariantNotPreserved(text("∧ A B"), text("∧ B A")))
    );
}

#[test]
fn while_needs_a_conjunction() {
    for other in ["P", "¬ P", "∨ P B", "→ P B", "= P B", "< P B", "∀ P B", "∃ P B"] {
        assert_eq!(while_rule(&triple(other, "S", "P")), Err(RuleError::NotConjunction));
    }
}

#[test]
fn the_quotient_and_remainder_derivation() {
    let lemma1 = formula("→ ⊤ = x x+y*0");
    let line2 = triple("= x x+y*0", "r≔x", "= x r+y*0");
    let line3 = triple("= x r+y*0", "q≔0", "= x r+y*q");
    let line4 = consequence_rule(&lemma1, &line2, &formula("→ = x r+y*0 = x r+y*0")).unwrap();
    let line5 = composition_rule(&line4, &line3).unwrap();
    let lemma2 = formula("→ ∧ = x r+y*q ∨ < y r = y r = x (r-y)+y*(1+q)");
    let line7 = triple("= x (r-y)+y*(1+q)", "r≔r-y", "= x r+y*(1+q)");
    let line8 = triple("= x r+y*(1+q)", "q≔1+q", "= x r+y*q");
    let line9 = composition_rule(&line7, &line8).unwrap();
    let line10 = consequence_rule(&lemma2, &line9, &formula("→ = x r+y*q = x r+y*q")).unwrap();
    let line12 = while_rule(&line10).unwrap();
    let line13 = composition_rule(&line5, &line12).unwrap();
    assert_eq!(
        line13,
        triple(
            "⊤",
            "r≔x;q≔0;while ∨ < y r = y r do r≔r-y;q≔1+q done",
            "∧ ¬ ∨ < y r = y r = x r+y*q"
        )
    );
    assert_eq!(
        line13.to_infix_notation(),
        "{⊤} r≔x;q≔0;while ∨ < y r = y r do r≔r-y;q≔1+q done {((¬((y<r)∨(y=r)))∧(x=r+y*q))}"
    );
}
