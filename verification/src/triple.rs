//! Hoare triples `{P} C {Q}`.

use crate::formula::{Formula, FormulaView};
use crate::parser::{parse_text, ParseError};
use crate::text::{concat3, concat5};
use vstd::prelude::*;
use vstd::std_specs::cmp::PartialEqSpecImpl;
use vstd::string::*;

verus! {

/// A Hoare triple `{P} C {Q}`: if `P` holds before the command `C` runs, `Q`
/// holds after it.
#[derive(Debug)]
pub struct Triple {
    /// What holds before the command.
    pub precondition: Formula,
    /// The command; its text is never taken apart.
    pub command: String,
    /// What holds after the command.
    pub postcondition: Formula,
}

/// The mathematical model of a [`Triple`].
pub struct TripleView {
    pub precondition: FormulaView,
    pub command: Seq<char>,
    pub postcondition: FormulaView,
}

impl View for Triple {
    type V = TripleView;

    open spec fn view(&self) -> TripleView {
        TripleView {
            precondition: self.precondition@,
            command: self.command@,
            postcondition: self.postcondition@,
        }
    }
}

impl TripleView {
    /// Both conditions are well-formed.
    pub open spec fn well_formed(self) -> bool {
        self.precondition.well_formed() && self.postcondition.well_formed()
    }

    /// The triple as `{P} C {Q}`, with both conditions in infix notation.
    pub open spec fn infix(self) -> Seq<char> {
        "{"@ + self.precondition.infix() + "} "@ + self.command + " {"@
            + self.postcondition.infix() + "}"@
    }
}

/// The triple that three texts stand for: both conditions are read as
/// formulae, the precondition first; the command is taken as it is.
pub open spec fn triple_of(
    precondition: Seq<char>,
    command: Seq<char>,
    postcondition: Seq<char>,
) -> Result<TripleView, ParseError> {
    match (parse_text(precondition), parse_text(postcondition)) {
        (Ok(p), Ok(q)) => Ok(TripleView { precondition: p, command, postcondition: q }),
        (Err(e), _) => Err(e),
        (_, Err(e)) => Err(e),
    }
}

impl Triple {
    /// Reads a triple from the prefix notation of its two conditions and the
    /// text of its command.
    pub fn new(precondition: &str, command: &str, postcondition: &str) -> (result: Result<
        Triple,
        ParseError,
    >)
        ensures
            match result {
                Ok(t) => triple_of(precondition@, command@, postcondition@) == Ok::<
                    TripleView,
                    ParseError,
                >(t@),
                Err(e) => triple_of(precondition@, command@, postcondition@) == Err::<
                    TripleView,
                    ParseError,
                >(e),
            },
    {
        let p = match Formula::new(precondition) {
            Ok(p) => p,
            Err(e) => {
                return Err(e);
            },
        };
        let q = match Formula::new(postcondition) {
            Ok(q) => q,
            Err(e) => {
                return Err(e);
            },
        };
        Ok(Triple { precondition: p, command: String::from_str(command), postcondition: q })
    }

    /// Writes the triple as `{P} C {Q}`, with both conditions in infix
    /// notation.
    pub fn to_infix_notation(&self) -> (text: String)
        ensures
            text@ == self@.infix(),
    {
        let head = concat3("{", self.precondition.to_infix_notation().as_str(), "} ");
        concat5(
            head.as_str(),
            self.command.as_str(),
            " {",
            self.postcondition.to_infix_notation().as_str(),
            "}",
        )
    }
}

impl Clone for Triple {
    /// A copy of the triple.
    fn clone(&self) -> (copy: Self)
        ensures
            copy@ == self@,
    {
        Triple {
            precondition: self.precondition.clone(),
            command: self.command.clone(),
            postcondition: self.postcondition.clone(),
        }
    }
}

impl PartialEq for Triple {
    /// Two triples are equal where their preconditions, their commands and
    /// their postconditions are.
    fn eq(&self, other: &Self) -> (equal: bool) {
        self.precondition == other.precondition && self.command == other.command
            && self.postcondition == other.postcondition
    }
}

impl PartialEqSpecImpl for Triple {
    open spec fn obeys_eq_spec() -> bool {
        true
    }

    open spec fn eq_spec(&self, other: &Self) -> bool {
        self@ == other@
    }
}

} // verus!
