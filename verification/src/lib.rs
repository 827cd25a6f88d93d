//! First-order formulae and Hoare-logic inference rules.
//!
//! A formula is read from prefix notation ([`Formula::new`]) and written out
//! in prefix or infix notation. A [`Triple`] holds a precondition, a command
//! and a postcondition. The four rules ([`composition_rule`],
//! [`condition_rule`], [`consequence_rule`], [`while_rule`]) derive a triple
//! from triples and implications, or say why they do not apply. A proof is a
//! sequence of [`ProofLine`]s.

pub mod error;
pub mod euclid;
pub mod formula;
pub mod laws;
pub mod parser;
pub mod proof_line;
pub mod rules;
pub mod text;
pub mod triple;

pub use error::{Counterpart, RuleError, Side};
pub use formula::{Formula, Kind};
pub use parser::{ParseError, Parser};
pub use proof_line::ProofLine;
pub use rules::{composition_rule, condition_rule, consequence_rule, while_rule};
pub use triple::Triple;
