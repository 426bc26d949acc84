//! What a formula means: which substance a sequence of characters stands for,
//! or why it stands for none.
//!
//! ```text
//! substance   = coefficient? component+ hydrate?
//! component   = element | group
//! group       = '(' component* ')' subscript?
//! element     = symbol subscript?
//! hydrate     = '*' coefficient? 'H' '2' 'O'
//! symbol      = capital small*
//! subscript   = number
//! coefficient = number
//! number      = digit+
//! ```
//!
//! A subscript or coefficient that is not written is 1. One that is written
//! must not be zero: a number that stands for zero, such as `0` or `00`, is
//! turned down as an unexpected token. Zeros before other digits do not count:
//! `05` is five. A substance holds at least one component. A group may be
//! empty; it then holds no atoms.
//!
//! The functions here read the input one token ahead, from a position `at`
//! where a token begins or the input ends. Each gives what it read together
//! with the position of the token that follows, or the first error. A
//! character that begins no token is reported when the token before it has been
//! read, and that error goes before any other that the token may lead to.
use crate::chemistry::table::element_named;
use crate::error::ErrorView;
use crate::text::decimal_value;
use crate::tokenizer::{lemma_scan_advances, scan, Scan, TokenView};
use crate::tokens::component::{positive_components, ComponentView};
use crate::tokens::element::ElementView;
use crate::tokens::group::GroupView;
use crate::tokens::hydrate::HydrateView;
use crate::tokens::substance::SubstanceView;
use vstd::prelude::*;

verus! {

/// The position after the token at `at`. It is an error if the character
/// there begins no token.
pub open spec fn advance(input: Seq<char>, at: int) -> Result<int, ErrorView> {
    match scan(input, at) {
        Scan::Token { end, .. } => match scan(input, end) {
            Scan::Unexpected { found } => Err(ErrorView::UnexpectedToken(seq![found], end as nat)),
            _ => Ok(end),
        },
        _ => Ok(at),
    }
}

/// Reads the token `expected` at `at`. Another token there is an error, and
/// so is the end of the input.
pub open spec fn consume(input: Seq<char>, at: int, expected: TokenView) -> Result<int, ErrorView> {
    match scan(input, at) {
        Scan::Token { token, .. } => if token == expected {
            advance(input, at)
        } else {
            Err(ErrorView::UnexpectedToken(token.text(), at as nat))
        },
        _ => Err(ErrorView::UnexpectedEnd(expected.text())),
    }
}

/// Reads a coefficient or a subscript: the number at `at`, or 1 where no
/// number stands there. A number that stands for zero is an unexpected token,
/// and one larger than `usize::MAX` is an overflow.
pub open spec fn multiplier(input: Seq<char>, at: int) -> Result<(nat, int), ErrorView> {
    match scan(input, at) {
        Scan::Token { token: TokenView::Number(digits), .. } => match advance(input, at) {
            Ok(next) => if decimal_value(digits) == 0 {
                Err(ErrorView::UnexpectedToken(digits, at as nat))
            } else if decimal_value(digits) <= usize::MAX {
                Ok((decimal_value(digits), next))
            } else {
                Err(ErrorView::Overflow)
            },
            Err(error) => Err(error),
        },
        _ => Ok((1, at)),
    }
}

/// Reads an element: the symbol `text` at `at`, which must name a chemical
/// element, and its subscript.
pub open spec fn element(input: Seq<char>, at: int, text: Seq<char>) -> Result<
    (ElementView, int),
    ErrorView,
> {
    match consume(input, at, TokenView::Symbol(text)) {
        Ok(next) => match element_named(text) {
            Some(chemical_element) => match multiplier(input, next) {
                Ok((subscript, after)) => Ok((ElementView { chemical_element, subscript }, after)),
                Err(error) => Err(error),
            },
            None => Err(ErrorView::UnknownElement(text, at as nat)),
        },
        Err(error) => Err(error),
    }
}

/// Reads a group: `(`, components, `)` and the subscript.
pub open spec fn group(input: Seq<char>, at: int) -> Result<(GroupView, int), ErrorView>
    decreases input.len() - at, 0nat,
{
    match consume(input, at, TokenView::LParen) {
        Ok(inside) => match components(input, inside) {
            Ok((composition, close)) => match consume(input, close, TokenView::RParen) {
                Ok(next) => match multiplier(input, next) {
                    Ok((subscript, after)) => Ok((GroupView { composition, subscript }, after)),
                    Err(error) => Err(error),
                },
                Err(error) => Err(error),
            },
            Err(error) => Err(error),
        },
        Err(error) => Err(error),
    }
}

/// Reads a component where one begins at `at`: a group at `(`, an element at
/// a symbol. Anywhere else there is no component, which is no error.
pub open spec fn component(input: Seq<char>, at: int) -> Result<
    Option<(ComponentView, int)>,
    ErrorView,
>
    decreases input.len() - at, 1nat,
{
    match scan(input, at) {
        Scan::Token { token: TokenView::LParen, .. } => match group(input, at) {
            Ok((found, next)) => Ok(Some((ComponentView::Group(found), next))),
            Err(error) => Err(error),
        },
        Scan::Token { token: TokenView::Symbol(text), .. } => match element(input, at, text) {
            Ok((found, next)) => Ok(Some((ComponentView::Element(found), next))),
            Err(error) => Err(error),
        },
        _ => Ok(None),
    }
}

/// Reads components for as long as one begins at the position reached.
pub open spec fn components(input: Seq<char>, at: int) -> Result<
    (Seq<ComponentView>, int),
    ErrorView,
>
    decreases input.len() - at, 2nat,
{
    match component(input, at) {
        Ok(Some((first, next))) => if at < next <= input.len() {
            match components(input, next) {
                Ok((rest, after)) => Ok((seq![first] + rest, after)),
                Err(error) => Err(error),
            }
        } else {
            Ok((seq![first], next))
        },
        Ok(None) => Ok((Seq::empty(), at)),
        Err(error) => Err(error),
    }
}

/// Reads the token `expected` of the water of a hydrate at `at`. Another
/// token there makes the hydrate incorrect; the end of the input is an error
/// of its own.
pub open spec fn consume_water(input: Seq<char>, at: int, expected: TokenView) -> Result<
    int,
    ErrorView,
> {
    match scan(input, at) {
        Scan::Token { token, .. } => if token == expected {
            advance(input, at)
        } else {
            Err(ErrorView::IncorrectHydrate)
        },
        _ => Err(ErrorView::UnexpectedEnd(expected.text())),
    }
}

/// Reads a hydrate: `*`, the coefficient and the three tokens of `H2O`.
pub open spec fn hydrate(input: Seq<char>, at: int) -> Result<(HydrateView, int), ErrorView> {
    match consume(input, at, TokenView::Asterisk) {
        Ok(start) => match multiplier(input, start) {
            Ok((coefficient, hydrogen)) => match consume_water(
                input,
                hydrogen,
                TokenView::Symbol(seq!['H']),
            ) {
                Ok(two) => match consume_water(input, two, TokenView::Number(seq!['2'])) {
                    Ok(oxygen) => match consume_water(
                        input,
                        oxygen,
                        TokenView::Symbol(seq!['O']),
                    ) {
                        Ok(after) => Ok((HydrateView { coefficient }, after)),
                        Err(error) => Err(error),
                    },
                    Err(error) => Err(error),
                },
                Err(error) => Err(error),
            },
            Err(error) => Err(error),
        },
        Err(error) => Err(error),
    }
}

/// Reads a hydrate where `*` stands at `at`, and nothing elsewhere.
pub open spec fn optional_hydrate(input: Seq<char>, at: int) -> Result<
    (Option<HydrateView>, int),
    ErrorView,
> {
    match scan(input, at) {
        Scan::Token { token: TokenView::Asterisk, .. } => match hydrate(input, at) {
            Ok((found, after)) => Ok((Some(found), after)),
            Err(error) => Err(error),
        },
        _ => Ok((None, at)),
    }
}

/// What is named as missing where the input ends and a component was still
/// needed.
pub open spec fn component_name() -> Seq<char> {
    "component"@
}

/// The error where a component is needed at `at` and none begins there: the
/// token that stands there is unexpected, or the input has ended.
pub open spec fn missing_component(input: Seq<char>, at: int) -> ErrorView {
    match scan(input, at) {
        Scan::Token { token, .. } => ErrorView::UnexpectedToken(token.text(), at as nat),
        _ => ErrorView::UnexpectedEnd(component_name()),
    }
}

/// Reads a substance: the coefficient, at least one component and the
/// hydrate, after which the input must end.
pub open spec fn substance(input: Seq<char>, at: int) -> Result<SubstanceView, ErrorView> {
    match multiplier(input, at) {
        Ok((coefficient, start)) => match components(input, start) {
            Ok((composition, star)) => if composition.len() == 0 {
                Err(missing_component(input, star))
            } else {
                match optional_hydrate(input, star) {
                    Ok((hydrate, end)) => match scan(input, end) {
                        Scan::Token { token, .. } => Err(
                            ErrorView::UnexpectedToken(token.text(), end as nat),
                        ),
                        _ => Ok(SubstanceView { coefficient, composition, hydrate }),
                    },
                    Err(error) => Err(error),
                }
            },
            Err(error) => Err(error),
        },
        Err(error) => Err(error),
    }
}

/// The substance that the input stands for from position `from` on, or the
/// first thing that is wrong with it.
pub open spec fn parsed(input: Seq<char>, from: int) -> Result<SubstanceView, ErrorView> {
    match scan(input, from) {
        Scan::Unexpected { found } => Err(ErrorView::UnexpectedToken(seq![found], from as nat)),
        _ => substance(input, from),
    }
}

/// Reading a token moves on in the input and stays within it.
pub proof fn lemma_consume_moves(input: Seq<char>, at: int, expected: TokenView)
    ensures
        consume(input, at, expected) matches Ok(next) ==> 0 <= at < next <= input.len(),
        consume_water(input, at, expected) matches Ok(next) ==> 0 <= at < next <= input.len(),
{
    lemma_scan_advances(input, at);
}

/// Reading a coefficient or a subscript never moves back, and stays within
/// the input.
pub proof fn lemma_multiplier_moves(input: Seq<char>, at: int)
    requires
        0 <= at <= input.len(),
    ensures
        multiplier(input, at) matches Ok((_, next)) ==> at <= next <= input.len(),
{
    lemma_scan_advances(input, at);
}

/// Reading an element moves on in the input and stays within it.
pub proof fn lemma_element_moves(input: Seq<char>, at: int, text: Seq<char>)
    ensures
        element(input, at, text) matches Ok((_, next)) ==> 0 <= at < next <= input.len(),
{
    lemma_consume_moves(input, at, TokenView::Symbol(text));
    if let Ok(next) = consume(input, at, TokenView::Symbol(text)) {
        lemma_multiplier_moves(input, next);
    }
}

/// Reading a group moves on in the input and stays within it.
pub proof fn lemma_group_moves(input: Seq<char>, at: int)
    ensures
        group(input, at) matches Ok((_, next)) ==> 0 <= at < next <= input.len(),
    decreases input.len() - at, 0nat,
{
    lemma_consume_moves(input, at, TokenView::LParen);
    if let Ok(inside) = consume(input, at, TokenView::LParen) {
        lemma_components_move(input, inside);
        if let Ok((_, close)) = components(input, inside) {
            lemma_consume_moves(input, close, TokenView::RParen);
            if let Ok(next) = consume(input, close, TokenView::RParen) {
                lemma_multiplier_moves(input, next);
            }
        }
    }
}

/// Reading a component moves on in the input and stays within it.
pub proof fn lemma_component_moves(input: Seq<char>, at: int)
    ensures
        component(input, at) matches Ok(Some((_, next))) ==> 0 <= at < next <= input.len(),
    decreases input.len() - at, 1nat,
{
    match scan(input, at) {
        Scan::Token { token: TokenView::LParen, .. } => lemma_group_moves(input, at),
        Scan::Token { token: TokenView::Symbol(text), .. } => lemma_element_moves(input, at, text),
        _ => {},
    }
}

/// Reading components never moves back, and stays within the input.
pub proof fn lemma_components_move(input: Seq<char>, at: int)
    requires
        0 <= at <= input.len(),
    ensures
        components(input, at) matches Ok((_, next)) ==> at <= next <= input.len(),
    decreases input.len() - at, 2nat,
{
    lemma_component_moves(input, at);
    if let Ok(Some((_, next))) = component(input, at) {
        lemma_components_move(input, next);
    }
}

/// A coefficient or subscript that was read is at least 1.
pub proof fn lemma_multiplier_positive(input: Seq<char>, at: int)
    ensures
        multiplier(input, at) matches Ok((number, _)) ==> number >= 1,
{
}

/// Every subscript of a group that was read is at least 1.
pub proof fn lemma_group_positive(input: Seq<char>, at: int)
    ensures
        group(input, at) matches Ok((found, _)) ==> found.positive(),
    decreases input.len() - at, 0nat,
{
    lemma_consume_moves(input, at, TokenView::LParen);
    if let Ok(inside) = consume(input, at, TokenView::LParen) {
        lemma_components_positive(input, inside);
        if let Ok((_, close)) = components(input, inside) {
            if let Ok(next) = consume(input, close, TokenView::RParen) {
                lemma_multiplier_positive(input, next);
            }
        }
    }
}

/// Every subscript of a component that was read is at least 1.
pub proof fn lemma_component_positive(input: Seq<char>, at: int)
    ensures
        component(input, at) matches Ok(Some((found, _))) ==> found.positive(),
    decreases input.len() - at, 1nat,
{
    match scan(input, at) {
        Scan::Token { token: TokenView::LParen, .. } => lemma_group_positive(input, at),
        Scan::Token { token: TokenView::Symbol(text), .. } => {
            if let Ok(next) = consume(input, at, TokenView::Symbol(text)) {
                lemma_multiplier_positive(input, next);
            }
        },
        _ => {},
    }
}

/// Every subscript of the components that were read is at least 1.
pub proof fn lemma_components_positive(input: Seq<char>, at: int)
    ensures
        components(input, at) matches Ok((found, _)) ==> positive_components(found),
    decreases input.len() - at, 2nat,
{
    lemma_component_positive(input, at);
    if let Ok(Some((first, next))) = component(input, at) {
        if at < next <= input.len() {
            lemma_components_positive(input, next);
            if let Ok((rest, _)) = components(input, next) {
                let found = seq![first] + rest;
                assert forall|i: int| 0 <= i < found.len() implies (#[trigger] found[i]).positive() by {
                    if i > 0 {
                        assert(found[i] == rest[i - 1]);
                    }
                }
            }
        }
    }
}

/// A substance that was read holds at least one component, and its
/// coefficient, every subscript in it and the coefficient of its hydrate are
/// at least 1.
pub proof fn lemma_parsed_positive(input: Seq<char>, from: int)
    ensures
        parsed(input, from) matches Ok(found) ==> found.composition.len() >= 1 && found.positive(),
{
    lemma_multiplier_positive(input, from);
    if let Ok((_, start)) = multiplier(input, from) {
        lemma_components_positive(input, start);
        if let Ok((_, star)) = components(input, start) {
            if let Ok(inside) = consume(input, star, TokenView::Asterisk) {
                lemma_multiplier_positive(input, inside);
            }
        }
    }
}

} // verus!
