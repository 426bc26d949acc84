use crate::chemistry::Table;
use crate::error::{Error, ErrorView};
use crate::grammar;
use crate::text::{decimal, text_eq};
use crate::tokenizer::{lemma_scan_advances, scan, Scan, Token, TokenView, Tokenizer};
use crate::tokens::substance::SubstanceView;
use crate::tokens::{Component, Element, Group, Hydrate, Substance};
use vstd::prelude::*;

verus! {

/// Reads a formula into a `Substance`, one token ahead of what it has used.
pub struct Parser<'a> {
    table: &'a Table,
    tokenizer: Tokenizer<'a>,
    lookahead: Option<Token<'a>>,
    start: usize,
}

/// The model of what `Parser::parse` returned.
pub open spec fn outcome(result: Result<Substance, Error>) -> Result<SubstanceView, ErrorView> {
    match result {
        Ok(substance) => Ok(substance@),
        Err(error) => Err(error@),
    }
}

/// Whether two tokens are of the same kind and written alike.
fn token_eq(left: &Token, right: &Token) -> (same: bool)
    ensures
        same == (left@ == right@),
{
    match (left, right) {
        (Token::Symbol(a), Token::Symbol(b)) => text_eq(a, b),
        (Token::Number(a), Token::Number(b)) => text_eq(a, b),
        (Token::LParen, Token::LParen) => true,
        (Token::RParen, Token::RParen) => true,
        (Token::Asterisk, Token::Asterisk) => true,
        _ => false,
    }
}

impl<'a> Parser<'a> {
    /// The characters of the formula.
    pub closed spec fn input(&self) -> Seq<char> {
        self.tokenizer.input()
    }

    /// The position from which `parse` reads.
    pub closed spec fn position(&self) -> int {
        self.tokenizer.position()
    }

    /// Whether the token ahead is the one that begins at `start`, and the
    /// tokenizer stands behind it.
    spec fn synced(&self) -> bool {
        &&& self.start <= self.input().len()
        &&& match scan(self.input(), self.start as int) {
            Scan::End => self.lookahead is None && self.tokenizer.position() == self.start,
            Scan::Token { token, end } => {
                &&& self.lookahead matches Some(ahead)
                &&& ahead@ == token
                &&& self.tokenizer.position() == end
            },
            Scan::Unexpected { .. } => false,
        }
    }

    /// How much of the input is left, the token ahead counted in.
    spec fn remaining(&self) -> int {
        self.input().len() - self.start
    }

    /// Whether `self` is what `before` became by reading up to `next`.
    spec fn moved(&self, before: &Self, next: int) -> bool {
        &&& self.synced()
        &&& self.input() == before.input()
        &&& self.table == before.table
        &&& self.start == next
    }

    /// A parser at the start of `formula`, which looks elements up in `table`.
    pub fn new(table: &'a Table, formula: &'a str) -> (parser: Self)
        ensures
            parser.input() == formula@,
            parser.position() == 0,
    {
        Self { table, tokenizer: Tokenizer::new(formula), lookahead: None, start: 0 }
    }

    /// Reads the formula from where the parser stands to its end. The result
    /// is the substance that the grammar gives, or the first error. The
    /// parser keeps its formula; after a substance was read it stands at the
    /// end of the formula, where another call finds the input ended.
    pub fn parse(&mut self) -> (result: Result<Substance, Error>)
        ensures
            outcome(result) == grammar::parsed(old(self).input(), old(self).position()),
            final(self).input() == old(self).input(),
            result is Ok ==> final(self).position() == final(self).input().len(),
    {
        self.start = self.tokenizer.cursor();
        self.lookahead = self.tokenizer.next_token()?;
        self.substance()
    }

    fn substance(&mut self) -> (result: Result<Substance, Error>)
        requires
            old(self).synced(),
        ensures
            final(self).input() == old(self).input(),
            result is Ok ==> final(self).position() == final(self).input().len(),
            outcome(result) == grammar::substance(old(self).input(), old(self).start as int),
    {
        let ghost input = self.input();
        let ghost from = self.start as int;
        let mut substance = Substance::new();
        substance.add_coefficient(self.coefficient()?);
        let ghost first = self.start as int;
        let ghost coefficient = substance@.coefficient;
        proof {
            grammar::lemma_multiplier_moves(input, from);
        }
        let mut empty = true;
        loop
            invariant
                empty == (substance@.composition.len() == 0),
                self.synced(),
                self.input() == input,
                input == old(self).input(),
                from == old(self).start,
                0 <= first <= self.start <= input.len(),
                grammar::multiplier(input, from) == Ok::<_, ErrorView>((coefficient, first)),
                substance@.coefficient == coefficient,
                substance@.hydrate is None,
                grammar::components(input, first) == match grammar::components(
                    input,
                    self.start as int,
                ) {
                    Ok((rest, after)) => Ok((substance@.composition + rest, after)),
                    Err(error) => Err(error),
                },
            ensures
                empty == (substance@.composition.len() == 0),
                self.synced(),
                self.input() == input,
                0 <= first <= self.start <= input.len(),
                substance@.coefficient == coefficient,
                substance@.hydrate is None,
                grammar::components(input, first) == Ok::<_, ErrorView>(
                    (substance@.composition, self.start as int),
                ),
            decreases self.remaining(),
        {
            let ghost before = substance@.composition;
            match self.component()? {
                Some(component) => {
                    substance.add_component(component);
                    empty = false;
                    proof {
                        if let Ok((rest, _)) = grammar::components(input, self.start as int) {
                            assert(before + (seq![component@] + rest) =~= before.push(component@)
                                + rest);
                        }
                    }
                },
                None => {
                    assert(before + Seq::empty() =~= before);
                    break ;
                },
            }
        }
        if empty {
            return match self.peek() {
                Some(token) => Err(Error::UnexpectedToken(token.value().to_owned(), self.start)),
                None => Err(Error::UnexpectedEnd("component".to_owned())),
            };
        }
        let starred = match self.peek() {
            Some(token) => token_eq(token, &Token::Asterisk),
            None => false,
        };
        if starred {
            substance.add_hydrate(self.hydrate()?);
        }
        match self.peek() {
            Some(token) => Err(Error::UnexpectedToken(token.value().to_owned(), self.start)),
            None => Ok(substance),
        }
    }

    fn component(&mut self) -> (result: Result<Option<Component>, Error>)
        requires
            old(self).synced(),
        ensures
            final(self).input() == old(self).input(),
            match grammar::component(old(self).input(), old(self).start as int) {
                Ok(Some((found, next))) => {
                    &&& result matches Ok(Some(component))
                    &&& component@ == found
                    &&& final(self).moved(old(self), next)
                    &&& old(self).start < next <= old(self).input().len()
                },
                Ok(None) => {
                    &&& result matches Ok(None)
                    &&& final(self).moved(old(self), old(self).start as int)
                },
                Err(error) => result matches Err(found) && found@ == error,
            },
        decreases old(self).remaining(), 1nat,
    {
        let component = match self.lookahead {
            Some(Token::LParen) => Some(Component::Group(self.group()?)),
            Some(Token::Symbol(value)) => {
                proof {
                    grammar::lemma_element_moves(self.input(), self.start as int, value@);
                }
                Some(Component::Element(self.element(value)?))
            },
            _ => None,
        };
        Ok(component)
    }

    fn group(&mut self) -> (result: Result<Group, Error>)
        requires
            old(self).synced(),
        ensures
            final(self).input() == old(self).input(),
            match grammar::group(old(self).input(), old(self).start as int) {
                Ok((found, next)) => {
                    &&& result matches Ok(group)
                    &&& group@ == found
                    &&& final(self).moved(old(self), next)
                    &&& old(self).start < next <= old(self).input().len()
                },
                Err(error) => result matches Err(found) && found@ == error,
            },
        decreases old(self).remaining(), 0nat,
    {
        let ghost input = self.input();
        let ghost from = self.start as int;
        proof {
            grammar::lemma_consume_moves(input, from, TokenView::LParen);
        }
        self.consume(Token::LParen)?;
        let ghost inside = self.start as int;
        let mut group = Group::new();
        loop
            invariant
                self.synced(),
                self.input() == input,
                input == old(self).input(),
                from == old(self).start,
                self.table == old(self).table,
                from < inside <= self.start <= input.len(),
                grammar::consume(input, from, TokenView::LParen) == Ok::<_, ErrorView>(inside),
                group@.subscript == 1,
                grammar::components(input, inside) == match grammar::components(
                    input,
                    self.start as int,
                ) {
                    Ok((rest, after)) => Ok((group@.composition + rest, after)),
                    Err(error) => Err(error),
                },
            ensures
                self.synced(),
                self.input() == input,
                self.table == old(self).table,
                from < inside <= self.start <= input.len(),
                group@.subscript == 1,
                grammar::components(input, inside) == Ok::<_, ErrorView>(
                    (group@.composition, self.start as int),
                ),
            decreases self.remaining(),
        {
            let ghost before = group@.composition;
            match self.component()? {
                Some(component) => {
                    group.add_component(component);
                    proof {
                        if let Ok((rest, _)) = grammar::components(input, self.start as int) {
                            assert(before + (seq![component@] + rest) =~= before.push(component@)
                                + rest);
                        }
                    }
                },
                None => {
                    assert(before + Seq::empty() =~= before);
                    break ;
                },
            }
        }
        proof {
            grammar::lemma_consume_moves(input, self.start as int, TokenView::RParen);
        }
        self.consume(Token::RParen)?;
        proof {
            grammar::lemma_multiplier_moves(input, self.start as int);
        }
        group.add_subscript(self.subscript()?);
        Ok(group)
    }

    fn element(&mut self, value: &'a str) -> (result: Result<Element, Error>)
        requires
            old(self).synced(),
        ensures
            final(self).input() == old(self).input(),
            match grammar::element(old(self).input(), old(self).start as int, value@) {
                Ok((found, next)) => {
                    &&& result matches Ok(element)
                    &&& element@ == found
                    &&& final(self).moved(old(self), next)
                },
                Err(error) => result matches Err(found) && found@ == error,
            },
    {
        let at = self.start;
        let symbol = self.consume(Token::Symbol(value))?;
        let chemical_element = match self.table.lookup(symbol.value()) {
            Some(chemical_element) => chemical_element,
            None => {
                return Err(Error::UnknownElement(symbol.value().to_owned(), at));
            },
        };
        let subscript = self.subscript()?;
        Ok(Element::new(chemical_element, subscript))
    }

    fn hydrate(&mut self) -> (result: Result<Hydrate, Error>)
        requires
            old(self).synced(),
        ensures
            final(self).input() == old(self).input(),
            match grammar::hydrate(old(self).input(), old(self).start as int) {
                Ok((found, next)) => {
                    &&& result matches Ok(hydrate)
                    &&& hydrate@ == found
                    &&& final(self).moved(old(self), next)
                },
                Err(error) => result matches Err(found) && found@ == error,
            },
    {
        proof {
            reveal_strlit("H");
            reveal_strlit("2");
            reveal_strlit("O");
            assert("H"@ =~= seq!['H']);
            assert("2"@ =~= seq!['2']);
            assert("O"@ =~= seq!['O']);
        }
        self.consume(Token::Asterisk)?;
        let mut hydrate = Hydrate::new();
        hydrate.add_coefficient(self.coefficient()?);
        self.water(Token::Symbol("H"))?;
        self.water(Token::Number("2"))?;
        self.water(Token::Symbol("O"))?;
        Ok(hydrate)
    }

    /// Reads one token of the water of a hydrate.
    fn water(&mut self, token: Token<'a>) -> (result: Result<Token<'a>, Error>)
        requires
            old(self).synced(),
        ensures
            final(self).input() == old(self).input(),
            match grammar::consume_water(old(self).input(), old(self).start as int, token@) {
                Ok(next) => {
                    &&& result matches Ok(found)
                    &&& found@ == token@
                    &&& final(self).moved(old(self), next)
                },
                Err(error) => result matches Err(found) && found@ == error,
            },
    {
        let wrong = match self.peek() {
            Some(ahead) => !token_eq(ahead, &token),
            None => false,
        };
        if wrong {
            return Err(Error::IncorrectHydrate);
        }
        self.consume(token)
    }

    fn coefficient(&mut self) -> (result: Result<usize, Error>)
        requires
            old(self).synced(),
        ensures
            final(self).input() == old(self).input(),
            match grammar::multiplier(old(self).input(), old(self).start as int) {
                Ok((number, next)) => {
                    &&& result matches Ok(found)
                    &&& found == number
                    &&& final(self).moved(old(self), next)
                },
                Err(error) => result matches Err(found) && found@ == error,
            },
    {
        proof {
            lemma_scan_advances(self.input(), self.start as int);
        }
        let at = self.start;
        let coefficient = match self.lookahead {
            Some(Token::Number(value)) => {
                let number = self.consume(Token::Number(value))?;
                match decimal(number.value()) {
                    Some(0) => {
                        return Err(Error::UnexpectedToken(number.value().to_owned(), at));
                    },
                    Some(coefficient) => coefficient,
                    None => {
                        return Err(Error::Overflow);
                    },
                }
            },
            _ => 1,
        };
        Ok(coefficient)
    }

    fn subscript(&mut self) -> (result: Result<usize, Error>)
        requires
            old(self).synced(),
        ensures
            final(self).input() == old(self).input(),
            match grammar::multiplier(old(self).input(), old(self).start as int) {
                Ok((number, next)) => {
                    &&& result matches Ok(found)
                    &&& found == number
                    &&& final(self).moved(old(self), next)
                },
                Err(error) => result matches Err(found) && found@ == error,
            },
    {
        proof {
            lemma_scan_advances(self.input(), self.start as int);
        }
        let at = self.start;
        let subscript = match self.lookahead {
            Some(Token::Number(value)) => {
                let number = self.consume(Token::Number(value))?;
                match decimal(number.value()) {
                    Some(0) => {
                        return Err(Error::UnexpectedToken(number.value().to_owned(), at));
                    },
                    Some(subscript) => subscript,
                    None => {
                        return Err(Error::Overflow);
                    },
                }
            },
            _ => 1,
        };
        Ok(subscript)
    }

    /// The token ahead, if the formula has not ended.
    fn peek(&self) -> (ahead: Option<&Token<'a>>)
        ensures
            match ahead {
                Some(token) => self.lookahead == Some(*token),
                None => self.lookahead is None,
            },
    {
        match &self.lookahead {
            Some(token) => Some(token),
            None => None,
        }
    }

    /// Takes the token ahead, which must be `token`, and reads the next one.
    fn consume(&mut self, token: Token<'a>) -> (result: Result<Token<'a>, Error>)
        requires
            old(self).synced(),
        ensures
            final(self).input() == old(self).input(),
            match grammar::consume(old(self).input(), old(self).start as int, token@) {
                Ok(next) => {
                    &&& result matches Ok(found)
                    &&& found@ == token@
                    &&& final(self).moved(old(self), next)
                },
                Err(error) => result matches Err(found) && found@ == error,
            },
    {
        let found = match &self.lookahead {
            Some(next_token) => {
                if token_eq(next_token, &token) {
                    *next_token
                } else {
                    return Err(
                        Error::UnexpectedToken(next_token.value().to_owned(), self.start),
                    );
                }
            },
            None => {
                return Err(Error::UnexpectedEnd(token.value().to_owned()));
            },
        };
        self.start = self.tokenizer.cursor();
        self.lookahead = self.tokenizer.next_token()?;
        Ok(found)
    }
}

} // verus!
