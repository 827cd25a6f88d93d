//! First-order formulae: the syntax tree, its mathematical model, and the two
//! notations a formula is written out in.

use crate::text::{concat3, concat5, spaced2, spaced3};
use vstd::prelude::*;
use vstd::std_specs::cmp::PartialEqSpecImpl;
use vstd::string::*;

verus! {

/// The symbol of negation.
pub const NEGATION: char = '¬';

/// The symbol of conjunction.
pub const CONJUNCTION: char = '∧';

/// The symbol of disjunction.
pub const DISJUNCTION: char = '∨';

/// The symbol of implication.
pub const IMPLICATION: char = '→';

/// The symbol of equivalence.
pub const EQUIVALENCE: char = '=';

/// The symbol of the less-than relation.
pub const LESS_THAN: char = '<';

/// The symbol of the universal quantifier.
pub const UNIVERSAL: char = '∀';

/// The symbol of the existential quantifier.
pub const EXISTENTIAL: char = '∃';

/// A first-order formula in prefix form.
///
/// - `Term`: a variable, a constant or an application such as `f(a,b)`,
///   written without whitespace.
/// - `Negation`: `¬ φ`.
/// - `Conjunction`: `∧ φ ψ`.
/// - `Disjunction`: `∨ φ ψ`.
/// - `Implication`: `→ φ ψ`.
/// - `Equivalence`: `= φ ψ`.
/// - `LessThan`: `< φ ψ`.
/// - `UniversalQuantifier`: `∀ x φ`.
/// - `ExistentialQuantifier`: `∃ x φ`.
#[derive(Debug)]
pub enum Formula {
    Term(String),
    Negation(Box<Formula>),
    Conjunction(Box<Formula>, Box<Formula>),
    Disjunction(Box<Formula>, Box<Formula>),
    Implication(Box<Formula>, Box<Formula>),
    Equivalence(Box<Formula>, Box<Formula>),
    LessThan(Box<Formula>, Box<Formula>),
    UniversalQuantifier(String, Box<Formula>),
    ExistentialQuantifier(String, Box<Formula>),
}

/// The mathematical model of a [`Formula`]: the same tree over texts.
pub enum FormulaView {
    Term(Seq<char>),
    Negation(Box<FormulaView>),
    Conjunction(Box<FormulaView>, Box<FormulaView>),
    Disjunction(Box<FormulaView>, Box<FormulaView>),
    Implication(Box<FormulaView>, Box<FormulaView>),
    Equivalence(Box<FormulaView>, Box<FormulaView>),
    LessThan(Box<FormulaView>, Box<FormulaView>),
    UniversalQuantifier(Seq<char>, Box<FormulaView>),
    ExistentialQuantifier(Seq<char>, Box<FormulaView>),
}

/// The variant of a formula's root.
#[derive(Debug, Clone, Copy, PartialEq, Eq, Structural)]
pub enum Kind {
    Term,
    Negation,
    Conjunction,
    Disjunction,
    Implication,
    Equivalence,
    LessThan,
    UniversalQuantifier,
    ExistentialQuantifier,
}

impl View for Formula {
    type V = FormulaView;

    open spec fn view(&self) -> FormulaView
        decreases self,
    {
        match self {
            Formula::Term(s) => FormulaView::Term(s@),
            Formula::Negation(f) => FormulaView::Negation(Box::new((**f).view())),
            Formula::Conjunction(l, r) => FormulaView::Conjunction(
                Box::new((**l).view()),
                Box::new((**r).view()),
            ),
            Formula::Disjunction(l, r) => FormulaView::Disjunction(
                Box::new((**l).view()),
                Box::new((**r).view()),
            ),
            Formula::Implication(l, r) => FormulaView::Implication(
                Box::new((**l).view()),
                Box::new((**r).view()),
            ),
            Formula::Equivalence(l, r) => FormulaView::Equivalence(
                Box::new((**l).view()),
                Box::new((**r).view()),
            ),
            Formula::LessThan(l, r) => FormulaView::LessThan(
                Box::new((**l).view()),
                Box::new((**r).view()),
            ),
            Formula::UniversalQuantifier(x, f) => FormulaView::UniversalQuantifier(
                x@,
                Box::new((**f).view()),
            ),
            Formula::ExistentialQuantifier(x, f) => FormulaView::ExistentialQuantifier(
                x@,
                Box::new((**f).view()),
            ),
        }
    }
}

/// Whether `c` is one of the eight symbols of the notation.
pub open spec fn is_symbol(c: char) -> bool {
    ||| c == NEGATION
    ||| c == CONJUNCTION
    ||| c == DISJUNCTION
    ||| c == IMPLICATION
    ||| c == EQUIVALENCE
    ||| c == LESS_THAN
    ||| c == UNIVERSAL
    ||| c == EXISTENTIAL
}

/// An atom is a word that is not a symbol standing alone.
pub open spec fn is_atom(s: Seq<char>) -> bool {
    &&& crate::text::is_word(s)
    &&& !(s.len() == 1 && is_symbol(s[0]))
}

impl FormulaView {
    /// The variant of the root.
    pub open spec fn kind(self) -> Kind {
        match self {
            FormulaView::Term(_) => Kind::Term,
            FormulaView::Negation(_) => Kind::Negation,
            FormulaView::Conjunction(_, _) => Kind::Conjunction,
            FormulaView::Disjunction(_, _) => Kind::Disjunction,
            FormulaView::Implication(_, _) => Kind::Implication,
            FormulaView::Equivalence(_, _) => Kind::Equivalence,
            FormulaView::LessThan(_, _) => Kind::LessThan,
            FormulaView::UniversalQuantifier(_, _) => Kind::UniversalQuantifier,
            FormulaView::ExistentialQuantifier(_, _) => Kind::ExistentialQuantifier,
        }
    }

    /// The formula in prefix notation: each symbol before its operands, one
    /// space between neighbouring tokens.
    pub open spec fn prefix(self) -> Seq<char>
        decreases self,
    {
        match self {
            FormulaView::Term(s) => s,
            FormulaView::Negation(f) => seq![NEGATION, ' '] + f.prefix(),
            FormulaView::Conjunction(l, r) => seq![CONJUNCTION, ' '] + l.prefix() + seq![' ']
                + r.prefix(),
            FormulaView::Disjunction(l, r) => seq![DISJUNCTION, ' '] + l.prefix() + seq![' ']
                + r.prefix(),
            FormulaView::Implication(l, r) => seq![IMPLICATION, ' '] + l.prefix() + seq![' ']
                + r.prefix(),
            FormulaView::Equivalence(l, r) => seq![EQUIVALENCE, ' '] + l.prefix() + seq![' ']
                + r.prefix(),
            FormulaView::LessThan(l, r) => seq![LESS_THAN, ' '] + l.prefix() + seq![' ']
                + r.prefix(),
            FormulaView::UniversalQuantifier(x, f) => seq![UNIVERSAL, ' '] + x + seq![' ']
                + f.prefix(),
            FormulaView::ExistentialQuantifier(x, f) => seq![EXISTENTIAL, ' '] + x + seq![' ']
                + f.prefix(),
        }
    }

    /// The formula in infix notation: every compound node in parentheses, a
    /// quantifier before its parenthesised body.
    pub open spec fn infix(self) -> Seq<char>
        decreases self,
    {
        match self {
            FormulaView::Term(s) => s,
            FormulaView::Negation(f) => seq!['(', NEGATION] + f.infix() + seq![')'],
            FormulaView::Conjunction(l, r) => seq!['('] + l.infix() + seq![CONJUNCTION]
                + r.infix() + seq![')'],
            FormulaView::Disjunction(l, r) => seq!['('] + l.infix() + seq![DISJUNCTION]
                + r.infix() + seq![')'],
            FormulaView::Implication(l, r) => seq!['('] + l.infix() + seq![IMPLICATION]
                + r.infix() + seq![')'],
            FormulaView::Equivalence(l, r) => seq!['('] + l.infix() + seq![EQUIVALENCE]
                + r.infix() + seq![')'],
            FormulaView::LessThan(l, r) => seq!['('] + l.infix() + seq![LESS_THAN] + r.infix()
                + seq![')'],
            FormulaView::UniversalQuantifier(x, f) => seq![UNIVERSAL] + x + seq!['('] + f.infix()
                + seq![')'],
            FormulaView::ExistentialQuantifier(x, f) => seq![EXISTENTIAL] + x + seq!['(']
                + f.infix() + seq![')'],
        }
    }

    /// The first component of the root: the text of a term, the bound variable
    /// of a quantifier, else the first operand in prefix notation.
    pub open spec fn first(self) -> Seq<char> {
        match self {
            FormulaView::Term(s) => s,
            FormulaView::Negation(f) => f.prefix(),
            FormulaView::Conjunction(l, _) => l.prefix(),
            FormulaView::Disjunction(l, _) => l.prefix(),
            FormulaView::Implication(l, _) => l.prefix(),
            FormulaView::Equivalence(l, _) => l.prefix(),
            FormulaView::LessThan(l, _) => l.prefix(),
            FormulaView::UniversalQuantifier(x, _) => x,
            FormulaView::ExistentialQuantifier(x, _) => x,
        }
    }

    /// The second component of the root: the second operand, or the body of a
    /// quantifier, in prefix notation; empty where there is none.
    pub open spec fn second(self) -> Seq<char> {
        match self {
            FormulaView::Term(_) => Seq::empty(),
            FormulaView::Negation(_) => Seq::empty(),
            FormulaView::Conjunction(_, r) => r.prefix(),
            FormulaView::Disjunction(_, r) => r.prefix(),
            FormulaView::Implication(_, r) => r.prefix(),
            FormulaView::Equivalence(_, r) => r.prefix(),
            FormulaView::LessThan(_, r) => r.prefix(),
            FormulaView::UniversalQuantifier(_, f) => f.prefix(),
            FormulaView::ExistentialQuantifier(_, f) => f.prefix(),
        }
    }

    /// The tokens of the formula in prefix order.
    pub open spec fn tokens(self) -> Seq<Seq<char>>
        decreases self,
    {
        match self {
            FormulaView::Term(s) => seq![s],
            FormulaView::Negation(f) => seq![seq![NEGATION]] + f.tokens(),
            FormulaView::Conjunction(l, r) => seq![seq![CONJUNCTION]] + l.tokens() + r.tokens(),
            FormulaView::Disjunction(l, r) => seq![seq![DISJUNCTION]] + l.tokens() + r.tokens(),
            FormulaView::Implication(l, r) => seq![seq![IMPLICATION]] + l.tokens() + r.tokens(),
            FormulaView::Equivalence(l, r) => seq![seq![EQUIVALENCE]] + l.tokens() + r.tokens(),
            FormulaView::LessThan(l, r) => seq![seq![LESS_THAN]] + l.tokens() + r.tokens(),
            FormulaView::UniversalQuantifier(x, f) => seq![seq![UNIVERSAL], x] + f.tokens(),
            FormulaView::ExistentialQuantifier(x, f) => seq![seq![EXISTENTIAL], x] + f.tokens(),
        }
    }

    /// Every term is an atom and every bound variable a word: the formula can
    /// be written in prefix notation and read back.
    pub open spec fn well_formed(self) -> bool
        decreases self,
    {
        match self {
            FormulaView::Term(s) => is_atom(s),
            FormulaView::Negation(f) => f.well_formed(),
            FormulaView::Conjunction(l, r) => l.well_formed() && r.well_formed(),
            FormulaView::Disjunction(l, r) => l.well_formed() && r.well_formed(),
            FormulaView::Implication(l, r) => l.well_formed() && r.well_formed(),
            FormulaView::Equivalence(l, r) => l.well_formed() && r.well_formed(),
            FormulaView::LessThan(l, r) => l.well_formed() && r.well_formed(),
            FormulaView::UniversalQuantifier(x, f) => crate::text::is_word(x) && f.well_formed(),
            FormulaView::ExistentialQuantifier(x, f) => crate::text::is_word(x)
                && f.well_formed(),
        }
    }
}

impl Kind {
    /// The symbol that opens a compound node of this variant; a term has
    /// none, and a space stands for that.
    pub open spec fn symbol(self) -> char {
        match self {
            Kind::Term => ' ',
            Kind::Negation => NEGATION,
            Kind::Conjunction => CONJUNCTION,
            Kind::Disjunction => DISJUNCTION,
            Kind::Implication => IMPLICATION,
            Kind::Equivalence => EQUIVALENCE,
            Kind::LessThan => LESS_THAN,
            Kind::UniversalQuantifier => UNIVERSAL,
            Kind::ExistentialQuantifier => EXISTENTIAL,
        }
    }

    /// The name of the variant.
    pub open spec fn name(self) -> Seq<char> {
        match self {
            Kind::Term => "Term"@,
            Kind::Negation => "Negation"@,
            Kind::Conjunction => "Conjunction"@,
            Kind::Disjunction => "Disjunction"@,
            Kind::Implication => "Implication"@,
            Kind::Equivalence => "Equivalence"@,
            Kind::LessThan => "LessThan"@,
            Kind::UniversalQuantifier => "UniversalQuantifier"@,
            Kind::ExistentialQuantifier => "ExistentialQuantifier"@,
        }
    }

    /// The name of the variant.
    pub fn to_name(&self) -> (name: String)
        ensures
            name@ == self.name(),
    {
        match self {
            Kind::Term => String::from_str("Term"),
            Kind::Negation => String::from_str("Negation"),
            Kind::Conjunction => String::from_str("Conjunction"),
            Kind::Disjunction => String::from_str("Disjunction"),
            Kind::Implication => String::from_str("Implication"),
            Kind::Equivalence => String::from_str("Equivalence"),
            Kind::LessThan => String::from_str("LessThan"),
            Kind::UniversalQuantifier => String::from_str("UniversalQuantifier"),
            Kind::ExistentialQuantifier => String::from_str("ExistentialQuantifier"),
        }
    }
}

impl Clone for Formula {
    /// A copy of the whole tree.
    fn clone(&self) -> (copy: Self)
        ensures
            copy@ == self@,
        decreases self,
    {
        match self {
            Formula::Term(s) => Formula::Term(s.clone()),
            Formula::Negation(f) => Formula::Negation(Box::new((**f).clone())),
            Formula::Conjunction(l, r) => Formula::Conjunction(
                Box::new((**l).clone()),
                Box::new((**r).clone()),
            ),
            Formula::Disjunction(l, r) => Formula::Disjunction(
                Box::new((**l).clone()),
                Box::new((**r).clone()),
            ),
            Formula::Implication(l, r) => Formula::Implication(
                Box::new((**l).clone()),
                Box::new((**r).clone()),
            ),
            Formula::Equivalence(l, r) => Formula::Equivalence(
                Box::new((**l).clone()),
                Box::new((**r).clone()),
            ),
            Formula::LessThan(l, r) => Formula::LessThan(
                Box::new((**l).clone()),
                Box::new((**r).clone()),
            ),
            Formula::UniversalQuantifier(x, f) => Formula::UniversalQuantifier(
                x.clone(),
                Box::new((**f).clone()),
            ),
            Formula::ExistentialQuantifier(x, f) => Formula::ExistentialQuantifier(
                x.clone(),
                Box::new((**f).clone()),
            ),
        }
    }
}

impl PartialEq for Formula {
    /// Structural equality: the same tree over the same texts.
    fn eq(&self, other: &Self) -> (equal: bool) {
        self.same_tree(other)
    }
}

impl PartialEqSpecImpl for Formula {
    open spec fn obeys_eq_spec() -> bool {
        true
    }

    open spec fn eq_spec(&self, other: &Self) -> bool {
        self@ == other@
    }
}

impl Formula {
    /// Whether the two formulae are the same tree over the same texts.
    pub fn same_tree(&self, other: &Formula) -> (same: bool)
        ensures
            same == (self@ == other@),
        decreases self,
    {
        match (self, other) {
            (Formula::Term(a), Formula::Term(b)) => *a == *b,
            (Formula::Negation(f), Formula::Negation(g)) => f.same_tree(g),
            (Formula::Conjunction(l, r), Formula::Conjunction(m, s)) => l.same_tree(m)
                && r.same_tree(s),
            (Formula::Disjunction(l, r), Formula::Disjunction(m, s)) => l.same_tree(m)
                && r.same_tree(s),
            (Formula::Implication(l, r), Formula::Implication(m, s)) => l.same_tree(m)
                && r.same_tree(s),
            (Formula::Equivalence(l, r), Formula::Equivalence(m, s)) => l.same_tree(m)
                && r.same_tree(s),
            (Formula::LessThan(l, r), Formula::LessThan(m, s)) => l.same_tree(m) && r.same_tree(s),
            (Formula::UniversalQuantifier(x, f), Formula::UniversalQuantifier(y, g)) => *x == *y
                && f.same_tree(g),
            (Formula::ExistentialQuantifier(x, f), Formula::ExistentialQuantifier(y, g)) => *x
                == *y && f.same_tree(g),
            _ => false,
        }
    }

    /// The variant of the root.
    pub fn kind(&self) -> (kind: Kind)
        ensures
            kind == self@.kind(),
    {
        match self {
            Formula::Term(_) => Kind::Term,
            Formula::Negation(_) => Kind::Negation,
            Formula::Conjunction(_, _) => Kind::Conjunction,
            Formula::Disjunction(_, _) => Kind::Disjunction,
            Formula::Implication(_, _) => Kind::Implication,
            Formula::Equivalence(_, _) => Kind::Equivalence,
            Formula::LessThan(_, _) => Kind::LessThan,
            Formula::UniversalQuantifier(_, _) => Kind::UniversalQuantifier,
            Formula::ExistentialQuantifier(_, _) => Kind::ExistentialQuantifier,
        }
    }

    /// Writes the formula in prefix notation.
    pub fn to_prefix_notation(&self) -> (text: String)
        ensures
            text@ == self@.prefix(),
        decreases self,
    {
        proof {
            reveal_strlit("¬");
            reveal_strlit("∧");
            reveal_strlit("∨");
            reveal_strlit("→");
            reveal_strlit("=");
            reveal_strlit("<");
            reveal_strlit("∀");
            reveal_strlit("∃");
        }
        match self {
            Formula::Term(s) => s.clone(),
            Formula::Negation(f) => spaced2("¬", f.to_prefix_notation().as_str()),
            Formula::Conjunction(l, r) => spaced3(
                "∧",
                l.to_prefix_notation().as_str(),
                r.to_prefix_notation().as_str(),
            ),
            Formula::Disjunction(l, r) => spaced3(
                "∨",
                l.to_prefix_notation().as_str(),
                r.to_prefix_notation().as_str(),
            ),
            Formula::Implication(l, r) => spaced3(
                "→",
                l.to_prefix_notation().as_str(),
                r.to_prefix_notation().as_str(),
            ),
            Formula::Equivalence(l, r) => spaced3(
                "=",
                l.to_prefix_notation().as_str(),
                r.to_prefix_notation().as_str(),
            ),
            Formula::LessThan(l, r) => spaced3(
                "<",
                l.to_prefix_notation().as_str(),
                r.to_prefix_notation().as_str(),
            ),
            Formula::UniversalQuantifier(x, f) => spaced3(
                "∀",
                x.as_str(),
                f.to_prefix_notation().as_str(),
            ),
            Formula::ExistentialQuantifier(x, f) => spaced3(
                "∃",
                x.as_str(),
                f.to_prefix_notation().as_str(),
            ),
        }
    }

    /// Writes the formula in infix notation.
    pub fn to_infix_notation(&self) -> (text: String)
        ensures
            text@ == self@.infix(),
        decreases self,
    {
        proof {
            reveal_strlit("(¬");
            reveal_strlit("(");
            reveal_strlit(")");
            reveal_strlit("∧");
            reveal_strlit("∨");
            reveal_strlit("→");
            reveal_strlit("=");
            reveal_strlit("<");
            reveal_strlit("∀");
            reveal_strlit("∃");
        }
        match self {
            Formula::Term(s) => s.clone(),
            Formula::Negation(f) => concat3("(¬", f.to_infix_notation().as_str(), ")"),
            Formula::Conjunction(l, r) => concat5(
                "(",
                l.to_infix_notation().as_str(),
                "∧",
                r.to_infix_notation().as_str(),
                ")",
            ),
            Formula::Disjunction(l, r) => concat5(
                "(",
                l.to_infix_notation().as_str(),
                "∨",
                r.to_infix_notation().as_str(),
                ")",
            ),
            Formula::Implication(l, r) => concat5(
                "(",
                l.to_infix_notation().as_str(),
                "→",
                r.to_infix_notation().as_str(),
                ")",
            ),
            Formula::Equivalence(l, r) => concat5(
                "(",
                l.to_infix_notation().as_str(),
                "=",
                r.to_infix_notation().as_str(),
                ")",
            ),
            Formula::LessThan(l, r) => concat5(
                "(",
                l.to_infix_notation().as_str(),
                "<",
                r.to_infix_notation().as_str(),
                ")",
            ),
            Formula::UniversalQuantifier(x, f) => concat5(
                "∀",
                x.as_str(),
                "(",
                f.to_infix_notation().as_str(),
                ")",
            ),
            Formula::ExistentialQuantifier(x, f) => concat5(
                "∃",
                x.as_str(),
                "(",
                f.to_infix_notation().as_str(),
                ")",
            ),
        }
    }

    /// Takes the root apart: its variant, its first component and its second.
    pub fn get_info(&self) -> (info: (Kind, String, String))
        ensures
            info.0 == self@.kind(),
            info.1@ == self@.first(),
            info.2@ == self@.second(),
    {
        match self {
            Formula::Term(s) => (Kind::Term, s.clone(), String::new()),
            Formula::Negation(f) => (Kind::Negation, f.to_prefix_notation(), String::new()),
            Formula::Conjunction(l, r) => (
                Kind::Conjunction,
                l.to_prefix_notation(),
                r.to_prefix_notation(),
            ),
            Formula::Disjunction(l, r) => (
                Kind::Disjunction,
                l.to_prefix_notation(),
                r.to_prefix_notation(),
            ),
            Formula::Implication(l, r) => (
                Kind::Implication,
                l.to_prefix_notation(),
                r.to_prefix_notation(),
            ),
            Formula::Equivalence(l, r) => (
                Kind::Equivalence,
                l.to_prefix_notation(),
                r.to_prefix_notation(),
            ),
            Formula::LessThan(l, r) => (
                Kind::LessThan,
                l.to_prefix_notation(),
                r.to_prefix_notation(),
            ),
            Formula::UniversalQuantifier(x, f) => (
                Kind::UniversalQuantifier,
                x.clone(),
                f.to_prefix_notation(),
            ),
            Formula::ExistentialQuantifier(x, f) => (
                Kind::ExistentialQuantifier,
                x.clone(),
                f.to_prefix_notation(),
            ),
        }
    }
}

} // verus!
