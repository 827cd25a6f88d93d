use hoare_logic::{
    composition_rule, condition_rule, consequence_rule, while_rule, Formula, Triple,
};

#[test]
fn consequence_test() {
    let triple1: Triple = Triple::new("= x+1 43", "y≔x+1", "= y 43").unwrap();
    let triple2: Triple = Triple::new("= y 43", "z≔y", "= z 43").unwrap();
    let test_triple: Triple = composition_rule(&triple1, &triple2).unwrap();
    let result: Triple = Triple::new("= x+1 43", "y≔x+1;z≔y", "= z 43").unwrap();
    assert_eq!(test_triple, result);
}

#[test]
fn consequence_multiple_triples() {
    let triple1: Triple = Triple::new("= x+1 43", "y≔x+1", "= y 43").unwrap();
    let triple2: Triple = Triple::new("= y 43", "z≔y", "= z 43").unwrap();
    let triple3: Triple = Triple::new("= z 43", "w≔z", "= w 43").unwrap();

    let intermediate: Triple = composition_rule(&triple1, &triple2).unwrap();
    let final_triple: Triple = composition_rule(&intermediate, &triple3).unwrap();

    let expected: Triple = Triple::new("= x+1 43", "y≔x+1;z≔y;w≔z", "= w 43").unwrap();
    assert_eq!(final_triple, expected);
}

#[test]
fn consequence_no_composition() {
    let triple1: Triple = Triple::new("= x+1 43", "y≔x+1", "= y 43").unwrap();
    let triple2: Triple = Triple::new("= z 44", "w≔z", "= w 44").unwrap();

    let result = composition_rule(&triple1, &triple2);
    assert!(result.is_err());
}

#[test]
fn consequence_identity_triple() {
    let triple1: Triple = Triple::new("= x+1 43", "y≔x+1", "= y 43").unwrap();
    let identity: Triple = Triple::new("= y 43", "y≔y", "= y 43").unwrap();

    let test_triple: Triple = composition_rule(&triple1, &identity).unwrap();
    let expected: Triple = Triple::new("= x+1 43", "y≔x+1;y≔y", "= y 43").unwrap();
    assert_eq!(test_triple, expected);
}

#[test]
fn consequence_complex_formulas() {
    let triple1: Triple = Triple::new("= 2*x + 1 43", "y≔2*x+1", "= y 43").unwrap();
    let triple2: Triple = Triple::new("= y 43", "z≔y", "= z 43").unwrap();

    let test_triple: Triple = composition_rule(&triple1, &triple2).unwrap();
    let expected: Triple = Triple::new("= 2*x + 1 43", "y≔2*x+1;z≔y", "= z 43").unwrap();
    assert_eq!(test_triple, expected);
}

#[test]
fn test_condition_rule_valid() {
    let triple1 = Triple::new("∧ B P", "S", "Q").unwrap();
    let triple2 = Triple::new("∧ ¬ B P", "T", "Q").unwrap();
    let result = condition_rule(&triple1, &triple2).unwrap();
    let expected = Triple::new("P", "if B then S else T endif", "Q").unwrap();
    assert_eq!(result, expected);
}

#[test]
fn test_condition_rule_invalid_conjunction() {
    let triple1 = Triple::new("P", "S", "Q").unwrap(); // Not a conjunction
    let triple2 = Triple::new("∧ ¬ B P", "T", "Q").unwrap();
    let result = condition_rule(&triple1, &triple2);
    assert!(result.is_err());
    assert_eq!(
        result.err().unwrap().message(),
        "The input triples do not have `Conjunction` formulae as precondition".to_string()
    );
}

#[test]
fn test_condition_rule_mismatched_conditions() {
    let triple1 = Triple::new("∧ B P", "S", "Q").unwrap();
    let triple2 = Triple::new("∧ ¬ C P", "T", "Q").unwrap(); // Mismatched negated condition
    let result = condition_rule(&triple1, &triple2);
    assert!(result.is_err());
    assert_eq!(
        result.err().unwrap().message(),
        "The input triples do not match negated \"B\" and unnegated \"C\" conditions"
            .to_string()
    );
}

#[test]
fn test_condition_rule_different_postconditions() {
    let triple1 = Triple::new("∧ B P", "S", "Q1").unwrap();
    let triple2 = Triple::new("∧ ¬ B P", "T", "Q2").unwrap(); // Different postconditions
    let result = condition_rule(&triple1, &triple2);
    assert!(result.is_err());
    assert_eq!(
        result.err().unwrap().message(),
        "The input triples do not have identical postconditions\nleft: Q1, right: Q2"
            .to_string()
    );
}

#[test]
fn test_condition_rule_empty_conditions() {
    let triple1 = Triple::new("∧ B P", "S", "Q").unwrap();
    let triple2 = Triple::new("∧ ¬ B P", "", "Q").unwrap(); // Empty command in right triple
    let result = condition_rule(&triple1, &triple2).unwrap();
    let expected = Triple::new("P", "if B then S else  endif", "Q").unwrap();
    assert_eq!(result, expected);
}

#[test]
fn test_consequence_rule_valid() {
    let formula1 = Formula::new("→ P1 P2").unwrap();
    let formula2 = Formula::new("→ Q2 Q1").unwrap();
    let triple1 = Triple::new("P2", "S", "Q2").unwrap();
    let result = consequence_rule(&formula1, &triple1, &formula2).unwrap();
    let expected = Triple::new("P1", "S", "Q1").unwrap();
    assert_eq!(result, expected);
}

#[test]
fn test_consequence_rule_invalid_left_formula() {
    let formula1 = Formula::new("P1").unwrap(); // Not an implication
    let formula2 = Formula::new("→ Q2 Q1").unwrap();
    let triple1 = Triple::new("P2", "S", "Q2").unwrap();
    let result = consequence_rule(&formula1, &triple1, &formula2);
    assert!(result.is_err());
    assert_eq!(
        result.err().unwrap().message(),
        "The left `Formula` \"P1\" is not an Implication type Formula. Left type: \"Term\""
            .to_string()
    );
}

#[test]
fn test_consequence_rule_invalid_right_formula() {
    let formula1 = Formula::new("→ P1 P2").unwrap();
    let formula2 = Formula::new("Q1").unwrap(); // Not an implication
    let triple1 = Triple::new("P2", "S", "Q2").unwrap();
    let result = consequence_rule(&formula1, &triple1, &formula2);
    assert!(result.is_err());
    assert_eq!(
        result.err().unwrap().message(),
        "The right `Formula` \"Q1\" is not an Implication type Formula. Right type: \"Term\""
            .to_string()
    );
}

#[test]
fn test_consequence_rule_mismatched_precondition() {
    let formula1 = Formula::new("→ P1 P2").unwrap();
    let formula2 = Formula::new("→ Q2 Q1").unwrap();
    let triple1 = Triple::new("P3", "S", "Q2").unwrap(); // Mismatched precondition
    let result = consequence_rule(&formula1, &triple1, &formula2);
    assert!(result.is_err());
    assert_eq!(result.err().unwrap().message(), "The left `Formula` \"→ P1 P2\" does not match the precondition of the middle `Triple` \"P3\"".to_string());
}

#[test]
fn test_consequence_rule_mismatched_postcondition() {
    let formula1 = Formula::new("→ P1 P2").unwrap();
    let formula2 = Formula::new("→ Q2 Q1").unwrap();
    let triple1 = Triple::new("P2", "S", "Q3").unwrap(); // Mismatched postcondition
    let result = consequence_rule(&formula1, &triple1, &formula2);
    assert!(result.is_err());
    assert_eq!(result.err().unwrap().message(), "The right `Formula` \"→ Q2 Q1\" does not match the postcondition of the middle `Triple` \"Q3\"".to_string());
}

#[test]
fn test_while_rule_valid() {
    let triple1 = Triple::new("∧ P B", "S", "P").unwrap();
    let result = while_rule(&triple1).unwrap();
    let expected = Triple::new("P", "while B do S done", "∧ ¬ B P").unwrap();
    assert_eq!(result, expected);
}

#[test]
fn test_while_rule_invalid_invariant() {
    let triple1 = Triple::new("∧ P B", "S", "Q").unwrap(); // Postcondition does not match invariant
    let result = while_rule(&triple1);
    assert!(result.is_err());
    assert_eq!(result.err().unwrap().message(), "The loop invariant is not preserved\nprecondition (P∧B): \"P\", postcondition (P): \"Q\"".to_string());
}

#[test]
fn test_while_rule_empty_command() {
    let triple1 = Triple::new("∧ P B", "", "P").unwrap(); // Empty command
    let result = while_rule(&triple1).unwrap();
    let expected = Triple::new("P", "while B do  done", "∧ ¬ B P").unwrap();
    assert_eq!(result, expected);
}

#[test]
fn test_while_rule_different_invariant() {
    let triple1 = Triple::new("∧ P B", "S", "R").unwrap(); // Different postcondition
    let result = while_rule(&triple1);
    assert!(result.is_err());
    assert_eq!(result.err().unwrap().message(), "The loop invariant is not preserved\nprecondition (P∧B): \"P\", postcondition (P): \"R\"".to_string());
}

#[test]
fn test_while_rule_complex_invariant() {
    let triple1 = Triple::new("∧ ∧ A B C", "S", "∧ A B").unwrap(); // Valid case with complex invariant
    let result = while_rule(&triple1).unwrap();
    let expected = Triple::new("∧ A B", "while C do S done", "∧ ¬ C ∧ A B").unwrap();
    assert_eq!(result, expected);
}
