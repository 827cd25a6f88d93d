//! What holds between writing a formula out and reading it back.

use crate::formula::{is_symbol, Formula, FormulaView, Kind, NEGATION};
use crate::parser::{lemma_parse_advances, parse_at, parse_text, token_kind, ParseError};
use crate::rules::{composition, condition, consequence, while_loop};
use crate::triple::{triple_of, TripleView};
use crate::text::{
    all_words, is_word, join_words, lemma_join_concat, lemma_split_gives_words, lemma_split_join,
    split_whitespace,
};
use vstd::prelude::*;

verus! {

/// A token opens a compound node exactly if it is that node's symbol standing
/// alone, and a term exactly if it is no symbol standing alone.
pub proof fn lemma_token_kind(t: Seq<char>)
    ensures
        token_kind(t) != Kind::Term ==> t == seq![token_kind(t).symbol()],
        token_kind(t) == Kind::Term <==> !(t.len() == 1 && is_symbol(t[0])),
{
}

/// A formula has at least one token, and its prefix notation is its tokens
/// joined by single spaces.
pub proof fn lemma_prefix_joins_tokens(f: FormulaView)
    ensures
        f.tokens().len() > 0,
        f.prefix() == join_words(f.tokens()),
    decreases f,
{
    match f {
        FormulaView::Term(s) => {},
        FormulaView::Negation(g) => {
            lemma_prefix_joins_tokens(*g);
            lemma_join_concat(seq![seq![NEGATION]], g.tokens());
        },
        FormulaView::Conjunction(l, r)
        | FormulaView::Disjunction(l, r)
        | FormulaView::Implication(l, r)
        | FormulaView::Equivalence(l, r)
        | FormulaView::LessThan(l, r) => {
            let op = seq![seq![f.kind().symbol()]];
            lemma_prefix_joins_tokens(*l);
            lemma_prefix_joins_tokens(*r);
            lemma_join_concat(op, l.tokens());
            lemma_join_concat(op + l.tokens(), r.tokens());
            assert(f.prefix() =~= seq![f.kind().symbol()] + seq![' '] + l.prefix() + seq![' ']
                + r.prefix());
        },
        FormulaView::UniversalQuantifier(x, g) | FormulaView::ExistentialQuantifier(x, g) => {
            let op = seq![seq![f.kind().symbol()]];
            lemma_prefix_joins_tokens(*g);
            lemma_join_concat(op, seq![x]);
            lemma_join_concat(op + seq![x], g.tokens());
            assert(f.tokens() =~= op + seq![x] + g.tokens());
            assert(f.prefix() =~= seq![f.kind().symbol()] + seq![' '] + x + seq![' ']
                + g.prefix());
        },
    }
}

/// The tokens of a well-formed formula are words.
pub proof fn lemma_tokens_are_words(f: FormulaView)
    requires
        f.well_formed(),
    ensures
        all_words(f.tokens()),
    decreases f,
{
    match f {
        FormulaView::Term(s) => {},
        FormulaView::Negation(g)
        | FormulaView::UniversalQuantifier(_, g)
        | FormulaView::ExistentialQuantifier(_, g) => {
            lemma_tokens_are_words(*g);
        },
        FormulaView::Conjunction(l, r)
        | FormulaView::Disjunction(l, r)
        | FormulaView::Implication(l, r)
        | FormulaView::Equivalence(l, r)
        | FormulaView::LessThan(l, r) => {
            lemma_tokens_are_words(*l);
            lemma_tokens_are_words(*r);
        },
    }
}

/// Reading finds a well-formed formula where its tokens stand, whatever
/// stands before and after them.
pub proof fn lemma_parse_tokens(f: FormulaView, before: Seq<Seq<char>>, after: Seq<Seq<char>>)
    requires
        f.well_formed(),
    ensures
        parse_at(before + f.tokens() + after, before.len() as int) == Some(
            (f, (before.len() + f.tokens().len()) as int),
        ),
    decreases f,
{
    let all = before + f.tokens() + after;
    match f {
        FormulaView::Term(s) => {},
        FormulaView::Negation(g) => {
            let head = before + seq![seq![NEGATION]];
            lemma_parse_tokens(*g, head, after);
            assert(all =~= head + g.tokens() + after);
        },
        FormulaView::Conjunction(l, r)
        | FormulaView::Disjunction(l, r)
        | FormulaView::Implication(l, r)
        | FormulaView::Equivalence(l, r)
        | FormulaView::LessThan(l, r) => {
            let head = before + seq![seq![f.kind().symbol()]];
            lemma_parse_tokens(*l, head, r.tokens() + after);
            assert(all =~= head + l.tokens() + (r.tokens() + after));
            lemma_parse_tokens(*r, head + l.tokens(), after);
            assert(all =~= head + l.tokens() + r.tokens() + after);
        },
        FormulaView::UniversalQuantifier(x, g) | FormulaView::ExistentialQuantifier(x, g) => {
            let head = before + seq![seq![f.kind().symbol()], x];
            lemma_parse_tokens(*g, head, after);
            assert(all =~= head + g.tokens() + after);
        },
    }
}

/// What is read from words is well-formed, and its tokens are the ones it
/// was read from.
pub proof fn lemma_parse_reads_tokens(tokens: Seq<Seq<char>>, pos: int)
    requires
        all_words(tokens),
    ensures
        parse_at(tokens, pos) matches Some((f, end)) ==> f.well_formed() && f.tokens()
            == tokens.subrange(pos, end),
    decreases tokens.len() - pos,
{
    lemma_parse_advances(tokens, pos);
    if let Some((f, end)) = parse_at(tokens, pos) {
        let t = tokens[pos];
        lemma_token_kind(t);
        match token_kind(t) {
            Kind::Term => {},
            Kind::Negation => {
                lemma_parse_reads_tokens(tokens, pos + 1);
            },
            Kind::UniversalQuantifier | Kind::ExistentialQuantifier => {
                lemma_parse_reads_tokens(tokens, pos + 2);
                lemma_parse_advances(tokens, pos + 2);
            },
            _ => {
                lemma_parse_reads_tokens(tokens, pos + 1);
                let mid = parse_at(tokens, pos + 1).unwrap().1;
                lemma_parse_reads_tokens(tokens, mid);
                lemma_parse_advances(tokens, mid);
            },
        }
    }
}

/// Every formula that is read from a text is well-formed.
pub proof fn lemma_parsed_is_well_formed(text: Seq<char>)
    ensures
        parse_text(text) matches Ok(f) ==> f.well_formed(),
{
    lemma_split_gives_words(text);
    lemma_parse_reads_tokens(split_whitespace(text), 0);
}

/// The prefix notation of a well-formed formula splits into its tokens.
pub proof fn lemma_prefix_splits_into_tokens(f: FormulaView)
    requires
        f.well_formed(),
    ensures
        split_whitespace(f.prefix()) == f.tokens(),
{
    lemma_prefix_joins_tokens(f);
    lemma_tokens_are_words(f);
    lemma_split_join(f.tokens());
}

/// A well-formed formula is read back from its prefix notation.
pub proof fn lemma_read_back(f: FormulaView)
    requires
        f.well_formed(),
    ensures
        parse_text(f.prefix()) == Ok::<FormulaView, ParseError>(f),
{
    lemma_prefix_splits_into_tokens(f);
    lemma_parse_tokens(f, Seq::empty(), Seq::empty());
}

/// Round trip: a formula that was read from some text is read back from its
/// own prefix notation.
pub proof fn lemma_round_trip(text: Seq<char>)
    ensures
        parse_text(text) matches Ok(f) ==> parse_text(f.prefix()) == Ok::<
            FormulaView,
            ParseError,
        >(f),
{
    lemma_parsed_is_well_formed(text);
    if let Ok(f) = parse_text(text) {
        lemma_read_back(f);
    }
}

/// What a text reads as, said without the way it is read: the one
/// well-formed formula whose tokens the text starts with. Where no
/// well-formed formula has its tokens there, the text does not read.
pub proof fn lemma_parse_is_the_leading_formula(text: Seq<char>, f: FormulaView)
    ensures
        parse_text(text) == Ok::<FormulaView, ParseError>(f) <==> f.well_formed()
            && f.tokens().is_prefix_of(split_whitespace(text)),
{
    let tokens = split_whitespace(text);
    lemma_split_gives_words(text);
    lemma_parse_reads_tokens(tokens, 0);
    if f.well_formed() && f.tokens().is_prefix_of(tokens) {
        let after = tokens.skip(f.tokens().len() as int);
        lemma_parse_tokens(f, Seq::empty(), after);
        assert(Seq::<Seq<char>>::empty() + f.tokens() + after =~= tokens);
    }
    if parse_text(text) == Ok::<FormulaView, ParseError>(f) {
        lemma_parse_advances(tokens, 0);
    }
}

/// No well-formed formula's tokens are the beginning of another's: where the
/// tokens of two well-formed formulae start the same sequence, the two are
/// one formula.
pub proof fn lemma_leading_formula_is_unique(
    f: FormulaView,
    g: FormulaView,
    tokens: Seq<Seq<char>>,
)
    requires
        f.well_formed(),
        g.well_formed(),
        f.tokens().is_prefix_of(tokens),
        g.tokens().is_prefix_of(tokens),
    ensures
        f == g,
{
    let after_f = tokens.skip(f.tokens().len() as int);
    let after_g = tokens.skip(g.tokens().len() as int);
    lemma_parse_tokens(f, Seq::empty(), after_f);
    lemma_parse_tokens(g, Seq::empty(), after_g);
    assert(Seq::<Seq<char>>::empty() + f.tokens() + after_f =~= tokens);
    assert(Seq::<Seq<char>>::empty() + g.tokens() + after_g =~= tokens);
}

/// Two well-formed formulae with the same prefix notation are the same
/// tree: on well-formed formulae, to compare the texts is to compare the
/// trees.
pub proof fn lemma_prefix_tells_apart(f: FormulaView, g: FormulaView)
    requires
        f.well_formed(),
        g.well_formed(),
        f.prefix() == g.prefix(),
    ensures
        f == g,
{
    lemma_read_back(f);
    lemma_read_back(g);
}

/// Writing a formula out twice gives the same text twice: whatever
/// `to_prefix_notation` returns for a formula is the one text that the tree
/// decides.
pub proof fn lemma_prefix_notation_is_stable(f: Formula, g: Formula, first: String, second: String)
    requires
        f@ == g@,
        call_ensures(Formula::to_prefix_notation, (&f,), first),
        call_ensures(Formula::to_prefix_notation, (&g,), second),
    ensures
        first@ == second@,
        first@ == f@.prefix(),
{
}

/// Taking a conjunction apart gives the variant `Conjunction` and the prefix
/// notations of its two conjuncts.
pub proof fn lemma_decompose_conjunction(left: FormulaView, right: FormulaView)
    ensures
        ({
            let both = FormulaView::Conjunction(Box::new(left), Box::new(right));
            &&& both.kind() == Kind::Conjunction
            &&& both.first() == left.prefix()
            &&& both.second() == right.prefix()
        }),
{
}

/// A well-formed triple is read back from the prefix notations of its
/// conditions and its command.
pub proof fn lemma_triple_read_back(t: TripleView)
    requires
        t.well_formed(),
    ensures
        triple_of(t.precondition.prefix(), t.command, t.postcondition.prefix()) == Ok::<
            TripleView,
            ParseError,
        >(t),
{
    lemma_read_back(t.precondition);
    lemma_read_back(t.postcondition);
}

/// Composition is associative: three triples that fit one after the other
/// compose to the same triple, whichever two are composed first.
pub proof fn lemma_composition_is_associative(a: TripleView, b: TripleView, c: TripleView)
    requires
        composition(a, b) is Ok,
        composition(b, c) is Ok,
    ensures
        composition(composition(a, b)->Ok_0, c) == composition(a, composition(b, c)->Ok_0),
        composition(composition(a, b)->Ok_0, c) is Ok,
{
    let left_first = composition(composition(a, b)->Ok_0, c)->Ok_0;
    let right_first = composition(a, composition(b, c)->Ok_0)->Ok_0;
    assert(left_first.command =~= right_first.command);
}

/// What the rule of composition derives from well-formed triples is
/// well-formed.
pub proof fn lemma_composition_keeps_well_formed(left: TripleView, right: TripleView)
    requires
        left.well_formed(),
        right.well_formed(),
    ensures
        composition(left, right) matches Ok(t) ==> t.well_formed(),
{
}

/// What the condition rule derives from well-formed triples is well-formed.
pub proof fn lemma_condition_keeps_well_formed(left: TripleView, right: TripleView)
    requires
        left.well_formed(),
        right.well_formed(),
    ensures
        condition(left, right) matches Ok(t) ==> t.well_formed(),
{
}

/// What the consequence rule derives from well-formed implications and a
/// well-formed triple is well-formed.
pub proof fn lemma_consequence_keeps_well_formed(
    left: FormulaView,
    middle: TripleView,
    right: FormulaView,
)
    requires
        left.well_formed(),
        middle.well_formed(),
        right.well_formed(),
    ensures
        consequence(left, middle, right) matches Ok(t) ==> t.well_formed(),
{
}

/// What the while rule derives from a well-formed triple is well-formed.
pub proof fn lemma_while_keeps_well_formed(input: TripleView)
    requires
        input.well_formed(),
    ensures
        while_loop(input) matches Ok(t) ==> t.well_formed(),
{
    if let Ok(t) = while_loop(input) {
        assert(t.postcondition.well_formed()) by {
            reveal_with_fuel(FormulaView::well_formed, 3);
        }
    }
}

/// A well-formed formula is a negation exactly if its prefix notation starts
/// with the negation sign and a space: to strip the sign from the tree is to
/// strip it from the text.
pub proof fn lemma_negation_shows_in_text(f: FormulaView)
    requires
        f.well_formed(),
    ensures
        f is Negation <==> seq![NEGATION, ' '].is_prefix_of(f.prefix()),
        f is Negation ==> f.prefix() == seq![NEGATION, ' '] + f.unnegated().prefix(),
{
    if seq![NEGATION, ' '].is_prefix_of(f.prefix()) {
        let text = f.prefix();
        assert(text[0] == NEGATION && text[1] == ' ');
    }
}

/// The first token of a well-formed formula tells the variant of its root.
pub proof fn lemma_first_token(f: FormulaView)
    requires
        f.well_formed(),
    ensures
        f.tokens().len() > 0,
        token_kind(f.tokens()[0]) == f.kind(),
{
}

} // verus!
