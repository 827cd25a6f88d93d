//! Reading a formula from its prefix notation.

use crate::formula::{
    Formula, FormulaView, Kind, CONJUNCTION, DISJUNCTION, EQUIVALENCE, EXISTENTIAL, IMPLICATION,
    LESS_THAN, NEGATION, UNIVERSAL,
};
use crate::laws::lemma_parse_is_the_leading_formula;
use crate::text::{split_whitespace, texts, tokenize};
use vstd::prelude::*;
use vstd::string::*;

verus! {

/// Why a text is not a formula.
#[derive(Debug, Clone, Copy, PartialEq, Eq, Structural)]
pub enum ParseError {
    /// The tokens ran out where an operand or a bound variable was due.
    UnexpectedEnd,
}

/// The variant of the node that the token `t` opens: a symbol standing alone
/// opens its compound node, any other token is a term.
pub open spec fn token_kind(t: Seq<char>) -> Kind {
    if t.len() != 1 {
        Kind::Term
    } else if t[0] == NEGATION {
        Kind::Negation
    } else if t[0] == CONJUNCTION {
        Kind::Conjunction
    } else if t[0] == DISJUNCTION {
        Kind::Disjunction
    } else if t[0] == IMPLICATION {
        Kind::Implication
    } else if t[0] == EQUIVALENCE {
        Kind::Equivalence
    } else if t[0] == LESS_THAN {
        Kind::LessThan
    } else if t[0] == UNIVERSAL {
        Kind::UniversalQuantifier
    } else if t[0] == EXISTENTIAL {
        Kind::ExistentialQuantifier
    } else {
        Kind::Term
    }
}

impl FormulaView {
    /// The node of a binary `kind` over `left` and `right`; a conjunction
    /// where `kind` is not binary.
    pub open spec fn binary(kind: Kind, left: FormulaView, right: FormulaView) -> FormulaView {
        match kind {
            Kind::Disjunction => FormulaView::Disjunction(Box::new(left), Box::new(right)),
            Kind::Implication => FormulaView::Implication(Box::new(left), Box::new(right)),
            Kind::Equivalence => FormulaView::Equivalence(Box::new(left), Box::new(right)),
            Kind::LessThan => FormulaView::LessThan(Box::new(left), Box::new(right)),
            _ => FormulaView::Conjunction(Box::new(left), Box::new(right)),
        }
    }

    /// The node of a quantifier `kind` that binds `variable` in `body`; a
    /// universal quantifier where `kind` is none.
    pub open spec fn quantified(kind: Kind, variable: Seq<char>, body: FormulaView) -> FormulaView {
        match kind {
            Kind::ExistentialQuantifier => FormulaView::ExistentialQuantifier(
                variable,
                Box::new(body),
            ),
            _ => FormulaView::UniversalQuantifier(variable, Box::new(body)),
        }
    }
}

/// The formula that starts at `tokens[pos]`, with the position after its last
/// token; `None` where the tokens run out before the formula is complete.
///
/// The first operand of a binary node always ends behind `pos` and within
/// the tokens ([`lemma_parse_advances`]); the test on `mid` only shows that
/// the definition is well-founded.
pub open spec fn parse_at(tokens: Seq<Seq<char>>, pos: int) -> Option<(FormulaView, int)>
    decreases tokens.len() - pos,
{
    if pos < 0 || pos >= tokens.len() {
        None
    } else {
        match token_kind(tokens[pos]) {
            Kind::Term => Some((FormulaView::Term(tokens[pos]), pos + 1)),
            Kind::Negation => match parse_at(tokens, pos + 1) {
                Some((f, end)) => Some((FormulaView::Negation(Box::new(f)), end)),
                None => None,
            },
            Kind::UniversalQuantifier | Kind::ExistentialQuantifier => if pos + 1 >= tokens.len() {
                None
            } else {
                match parse_at(tokens, pos + 2) {
                    Some((f, end)) => Some(
                        (
                            FormulaView::quantified(token_kind(tokens[pos]), tokens[pos + 1], f),
                            end,
                        ),
                    ),
                    None => None,
                }
            },
            kind => match parse_at(tokens, pos + 1) {
                Some((left, mid)) => if pos < mid <= tokens.len() {
                    match parse_at(tokens, mid) {
                        Some((right, end)) => Some((FormulaView::binary(kind, left, right), end)),
                        None => None,
                    }
                } else {
                    None
                },
                None => None,
            },
        }
    }
}

/// What a text reads as: the formula that its first tokens spell, whatever
/// follows it.
pub open spec fn parse_text(text: Seq<char>) -> Result<FormulaView, ParseError> {
    match parse_at(split_whitespace(text), 0) {
        Some((f, _)) => Ok(f),
        None => Err(ParseError::UnexpectedEnd),
    }
}

/// A formula takes at least one token and ends within the tokens.
pub proof fn lemma_parse_advances(tokens: Seq<Seq<char>>, pos: int)
    ensures
        parse_at(tokens, pos) matches Some((_, end)) ==> 0 <= pos < end <= tokens.len(),
    decreases tokens.len() - pos,
{
    if pos < 0 || pos >= tokens.len() {
    } else {
        match token_kind(tokens[pos]) {
            Kind::Term => {},
            Kind::Negation => {
                lemma_parse_advances(tokens, pos + 1);
            },
            Kind::UniversalQuantifier | Kind::ExistentialQuantifier => {
                if pos + 1 < tokens.len() {
                    lemma_parse_advances(tokens, pos + 2);
                }
            },
            _ => {
                lemma_parse_advances(tokens, pos + 1);
                match parse_at(tokens, pos + 1) {
                    Some((_, mid)) => {
                        lemma_parse_advances(tokens, mid);
                    },
                    None => {},
                }
            },
        }
    }
}

/// The symbol that `token` consists of, if it is a single character.
fn sole_char(token: &str) -> (c: Option<char>)
    ensures
        c == if token@.len() == 1 {
            Some(token@[0])
        } else {
            None
        },
{
    if token.unicode_len() == 1 {
        Some(token.get_char(0))
    } else {
        None
    }
}

/// The variant of the node that `token` opens.
fn kind_of_token(token: &str) -> (kind: Kind)
    ensures
        kind == token_kind(token@),
{
    match sole_char(token) {
        None => Kind::Term,
        Some(c) => {
            if c == NEGATION {
                Kind::Negation
            } else if c == CONJUNCTION {
                Kind::Conjunction
            } else if c == DISJUNCTION {
                Kind::Disjunction
            } else if c == IMPLICATION {
                Kind::Implication
            } else if c == EQUIVALENCE {
                Kind::Equivalence
            } else if c == LESS_THAN {
                Kind::LessThan
            } else if c == UNIVERSAL {
                Kind::UniversalQuantifier
            } else if c == EXISTENTIAL {
                Kind::ExistentialQuantifier
            } else {
                Kind::Term
            }
        },
    }
}

/// The node of a binary `kind` over `left` and `right`.
fn make_binary(kind: Kind, left: Formula, right: Formula) -> (f: Formula)
    ensures
        f@ == FormulaView::binary(kind, left@, right@),
{
    match kind {
        Kind::Disjunction => Formula::Disjunction(Box::new(left), Box::new(right)),
        Kind::Implication => Formula::Implication(Box::new(left), Box::new(right)),
        Kind::Equivalence => Formula::Equivalence(Box::new(left), Box::new(right)),
        Kind::LessThan => Formula::LessThan(Box::new(left), Box::new(right)),
        _ => Formula::Conjunction(Box::new(left), Box::new(right)),
    }
}

/// The node of a quantifier `kind` that binds `variable` in `body`.
fn make_quantified(kind: Kind, variable: String, body: Formula) -> (f: Formula)
    ensures
        f@ == FormulaView::quantified(kind, variable@, body@),
{
    match kind {
        Kind::ExistentialQuantifier => Formula::ExistentialQuantifier(variable, Box::new(body)),
        _ => Formula::UniversalQuantifier(variable, Box::new(body)),
    }
}

/// A reader over a sequence of tokens.
pub struct Parser<'a> {
    /// The tokens of the text.
    tokens: &'a [String],
    /// The index of the next token to read.
    current: usize,
}

impl<'a> Parser<'a> {
    /// The texts of the tokens.
    pub closed spec fn tokens(&self) -> Seq<Seq<char>> {
        texts(self.tokens@)
    }

    /// The index of the next token to read.
    pub closed spec fn position(&self) -> int {
        self.current as int
    }

    /// The position lies within the tokens or right behind them.
    pub closed spec fn well_formed(&self) -> bool {
        self.current <= self.tokens@.len()
    }

    /// A reader at the first of `tokens`.
    pub fn new(tokens: &'a [String]) -> (parser: Self)
        ensures
            parser.well_formed(),
            parser.tokens() == texts(tokens@),
            parser.position() == 0,
    {
        Parser { tokens, current: 0 }
    }

    /// Reads the formula that starts at the current token and moves behind
    /// it. Where the tokens run out first, the reader ends behind the last
    /// token.
    pub fn parse(&mut self) -> (result: Result<Formula, ParseError>)
        requires
            old(self).well_formed(),
        ensures
            final(self).well_formed(),
            final(self).tokens() == old(self).tokens(),
            match parse_at(old(self).tokens(), old(self).position()) {
                Some((f, end)) => result matches Ok(g) && g@ == f && final(self).position() == end,
                None => result == Err::<Formula, ParseError>(ParseError::UnexpectedEnd)
                    && final(self).position() == old(self).tokens().len(),
            },
    {
        self.parse_formula()
    }

    /// Reads the formula that starts at the current token and moves behind
    /// it: the token decides the node, and each operand is read in turn.
    /// Where the tokens run out first, the reader ends behind the last token.
    pub fn parse_formula(&mut self) -> (result: Result<Formula, ParseError>)
        requires
            old(self).well_formed(),
        ensures
            final(self).well_formed(),
            final(self).tokens() == old(self).tokens(),
            match parse_at(old(self).tokens(), old(self).position()) {
                Some((f, end)) => result matches Ok(g) && g@ == f && final(self).position() == end,
                None => result == Err::<Formula, ParseError>(ParseError::UnexpectedEnd)
                    && final(self).position() == old(self).tokens().len(),
            },
        decreases old(self).tokens().len() - old(self).position(),
    {
        if self.current == self.tokens.len() {
            return Err(ParseError::UnexpectedEnd);
        }
        let token: &String = &self.tokens[self.current];
        let kind = kind_of_token(token.as_str());
        self.current += 1;
        match kind {
            Kind::Term => Ok(Formula::Term(token.clone())),
            Kind::Negation => {
                match self.parse_formula() {
                    Ok(inner) => Ok(Formula::Negation(Box::new(inner))),
                    Err(e) => Err(e),
                }
            },
            Kind::UniversalQuantifier | Kind::ExistentialQuantifier => {
                if self.current == self.tokens.len() {
                    return Err(ParseError::UnexpectedEnd);
                }
                let variable = self.tokens[self.current].clone();
                self.current += 1;
                match self.parse_formula() {
                    Ok(inner) => Ok(make_quantified(kind, variable, inner)),
                    Err(e) => Err(e),
                }
            },
            _ => {
                let ghost start = self.current as int;
                let left = match self.parse_formula() {
                    Ok(left) => left,
                    Err(e) => {
                        return Err(e);
                    },
                };
                proof {
                    lemma_parse_advances(self.tokens(), start);
                }
                match self.parse_formula() {
                    Ok(right) => Ok(make_binary(kind, left, right)),
                    Err(e) => Err(e),
                }
            },
        }
    }
}

impl Formula {
    /// Reads a formula from its prefix notation. The text is cut at
    /// whitespace; tokens that follow the formula are ignored.
    ///
    /// The result is the well-formed formula whose tokens the text starts
    /// with; there is at most one. Where there is none, the tokens run out in
    /// the middle of a formula, and that is the error.
    pub fn new(input: &str) -> (result: Result<Formula, ParseError>)
        ensures
            match result {
                Ok(f) => parse_text(input@) == Ok::<FormulaView, ParseError>(f@),
                Err(e) => parse_text(input@) == Err::<FormulaView, ParseError>(e),
            },
            result matches Ok(f) ==> f@.well_formed() && f@.tokens().is_prefix_of(
                split_whitespace(input@),
            ),
            result is Err ==> forall|g: FormulaView|
                g.well_formed() ==> !(#[trigger] g.tokens()).is_prefix_of(
                    split_whitespace(input@),
                ),
    {
        let tokens = tokenize(input);
        let mut parser = Parser::new(tokens.as_slice());
        let result = parser.parse();
        proof {
            if let Ok(f) = &result {
                lemma_parse_is_the_leading_formula(input@, f@);
            }
            assert forall|g: FormulaView|
                parse_text(input@) == Ok::<FormulaView, ParseError>(g) <==> g.well_formed() && (
                #[trigger] g.tokens()).is_prefix_of(split_whitespace(input@)) by {
                lemma_parse_is_the_leading_formula(input@, g);
            }
        }
        result
    }
}

} // verus!
