use crate::chemistry::element::{is_lower, is_upper};
use crate::error::{Error, ErrorView};
use crate::text::{all_digits, chars_of, is_digit};
use vstd::prelude::*;
use vstd::string::StrSliceExecFns;

verus! {

/// A lexical unit of a formula. Symbols and numbers borrow their text from the
/// formula.
#[derive(Copy, Clone, Debug, PartialEq)]
pub enum Token<'a> {
    Symbol(&'a str),
    Number(&'a str),
    LParen,
    RParen,
    Asterisk,
}

/// A `Token` with its text as a sequence of characters.
pub enum TokenView {
    Symbol(Seq<char>),
    Number(Seq<char>),
    LParen,
    RParen,
    Asterisk,
}

impl TokenView {
    /// The characters that the token is written with.
    pub open spec fn text(self) -> Seq<char> {
        match self {
            TokenView::Symbol(text) => text,
            TokenView::Number(text) => text,
            TokenView::LParen => seq!['('],
            TokenView::RParen => seq![')'],
            TokenView::Asterisk => seq!['*'],
        }
    }
}

impl<'a> View for Token<'a> {
    type V = TokenView;

    open spec fn view(&self) -> TokenView {
        match self {
            Token::Symbol(text) => TokenView::Symbol(text@),
            Token::Number(text) => TokenView::Number(text@),
            Token::LParen => TokenView::LParen,
            Token::RParen => TokenView::RParen,
            Token::Asterisk => TokenView::Asterisk,
        }
    }
}

impl<'a> Token<'a> {
    /// The text of the token as it stands in the formula.
    pub fn value(&self) -> (text: &'a str)
        ensures
            text@ == self@.text(),
    {
        match self {
            Self::Symbol(symbol) => symbol,
            Self::Number(number) => number,
            Self::LParen => {
                proof {
                    reveal_strlit("(");
                }
                "("
            },
            Self::RParen => {
                proof {
                    reveal_strlit(")");
                }
                ")"
            },
            Self::Asterisk => {
                proof {
                    reveal_strlit("*");
                }
                "*"
            },
        }
    }
}

/// Where the run of small letters that starts at `from` ends: the position of
/// the first character at or after `from` that is no small letter, or the
/// length of the input.
pub open spec fn letters_end(input: Seq<char>, from: int) -> int
    decreases input.len() - from,
{
    if 0 <= from < input.len() && is_lower(input[from]) {
        letters_end(input, from + 1)
    } else {
        from
    }
}

/// Where the run of digits that starts at `from` ends.
pub open spec fn digits_end(input: Seq<char>, from: int) -> int
    decreases input.len() - from,
{
    if 0 <= from < input.len() && is_digit(input[from]) {
        digits_end(input, from + 1)
    } else {
        from
    }
}

/// What stands at a position of the input.
pub enum Scan {
    /// The input ends here.
    End,
    /// A token begins here and `end` is the position after its last character.
    Token { token: TokenView, end: int },
    /// The character here begins no token.
    Unexpected { found: char },
}

/// The token that begins at position `at` of the input.
///
/// A symbol is a capital letter with all the small letters that follow it; a
/// number is a digit with all the digits that follow it; each of `(`, `)` and
/// `*` is a token by itself.
pub open spec fn scan(input: Seq<char>, at: int) -> Scan {
    if !(0 <= at < input.len()) {
        Scan::End
    } else if is_upper(input[at]) {
        let end = letters_end(input, at + 1);
        Scan::Token { token: TokenView::Symbol(input.subrange(at, end)), end }
    } else if is_digit(input[at]) {
        let end = digits_end(input, at + 1);
        Scan::Token { token: TokenView::Number(input.subrange(at, end)), end }
    } else if input[at] == '(' {
        Scan::Token { token: TokenView::LParen, end: at + 1 }
    } else if input[at] == ')' {
        Scan::Token { token: TokenView::RParen, end: at + 1 }
    } else if input[at] == '*' {
        Scan::Token { token: TokenView::Asterisk, end: at + 1 }
    } else {
        Scan::Unexpected { found: input[at] }
    }
}

/// A run of small letters ends within the input, holds small letters only, and
/// cannot be made longer.
pub proof fn lemma_letters_end(input: Seq<char>, from: int)
    requires
        0 <= from <= input.len(),
    ensures
        from <= letters_end(input, from) <= input.len(),
        forall|i: int| from <= i < letters_end(input, from) ==> is_lower(#[trigger] input[i]),
        letters_end(input, from) < input.len() ==> !is_lower(input[letters_end(input, from)]),
    decreases input.len() - from,
{
    if from < input.len() && is_lower(input[from]) {
        lemma_letters_end(input, from + 1);
    }
}

/// A run of digits ends within the input, holds digits only, and cannot be
/// made longer.
pub proof fn lemma_digits_end(input: Seq<char>, from: int)
    requires
        0 <= from <= input.len(),
    ensures
        from <= digits_end(input, from) <= input.len(),
        forall|i: int| from <= i < digits_end(input, from) ==> is_digit(#[trigger] input[i]),
        digits_end(input, from) < input.len() ==> !is_digit(input[digits_end(input, from)]),
    decreases input.len() - from,
{
    if from < input.len() && is_digit(input[from]) {
        lemma_digits_end(input, from + 1);
    }
}

/// A token is never empty, ends within the input and is written as the input
/// has it; a number is made of digits.
pub proof fn lemma_scan_advances(input: Seq<char>, at: int)
    ensures
        scan(input, at) matches Scan::Token { token, end } ==> {
            &&& 0 <= at < end <= input.len()
            &&& token.text() == input.subrange(at, end)
            &&& token is Number ==> all_digits(token.text())
        },
{
    if 0 <= at < input.len() {
        lemma_letters_end(input, at + 1);
        lemma_digits_end(input, at + 1);
        if let Scan::Token { token, end } = scan(input, at) {
            assert(token.text() =~= input.subrange(at, end));
        }
    }
}

/// Reads a formula token by token, from left to right.
pub struct Tokenizer<'a> {
    formula: &'a str,
    chars: Vec<char>,
    cursor: usize,
}

impl<'a> Tokenizer<'a> {
    #[verifier::type_invariant]
    spec fn well_formed(&self) -> bool {
        &&& self.chars@ == self.formula@
        &&& self.cursor <= self.chars@.len()
    }

    /// The characters of the formula.
    pub closed spec fn input(&self) -> Seq<char> {
        self.chars@
    }

    /// The position of the next character to read.
    pub closed spec fn position(&self) -> int {
        self.cursor as int
    }

    /// A tokenizer at the start of `formula`.
    pub fn new(formula: &'a str) -> (tokenizer: Self)
        ensures
            tokenizer.input() == formula@,
            tokenizer.position() == 0,
    {
        Self { formula, chars: chars_of(formula), cursor: 0 }
    }

    /// Reads the token at the cursor and moves the cursor past it. At the end
    /// of the formula the result is `None`; at a character that begins no
    /// token it is an error that holds the character and its position, and the
    /// cursor stays.
    pub fn next_token(&mut self) -> (result: Result<Option<Token<'a>>, Error>)
        ensures
            final(self).input() == old(self).input(),
            0 <= old(self).position() <= final(self).position() <= old(self).input().len(),
            match scan(old(self).input(), old(self).position()) {
                Scan::End => result == Ok::<Option<Token<'a>>, Error>(None) && final(self).position()
                    == old(self).position(),
                Scan::Token { token, end } => {
                    &&& result matches Ok(Some(found))
                    &&& found@ == token
                    &&& final(self).position() == end
                },
                Scan::Unexpected { found } => {
                    &&& result matches Err(error)
                    &&& error@ == ErrorView::UnexpectedToken(seq![found], old(self).position() as nat)
                    &&& final(self).position() == old(self).position()
                },
            },
    {
        proof {
            use_type_invariant(&*self);
            lemma_scan_advances(self.input(), self.position());
        }
        if self.cursor >= self.chars.len() {
            return Ok(None);
        }
        let first = self.chars[self.cursor];
        let token = if 'A' <= first && first <= 'Z' {
            self.symbol()
        } else if '0' <= first && first <= '9' {
            self.number()
        } else {
            match self.terminal() {
                Some(token) => Some(token),
                None => {
                    proof {
                        use_type_invariant(&*self);
                    }
                    let found = self.formula.substring_char(self.cursor, self.cursor + 1);
                    assert(found@ == seq![first]);
                    return Err(Error::UnexpectedToken(found.to_owned(), self.cursor));
                },
            }
        };
        Ok(token)
    }

    /// The position of the next character to read, counted from zero.
    pub fn cursor(&self) -> (cursor: usize)
        ensures
            cursor == self.position(),
    {
        self.cursor
    }

    /// Reads a symbol, where a capital letter stands at the cursor.
    fn symbol(&mut self) -> (result: Option<Token<'a>>)
        requires
            0 <= old(self).position() < old(self).input().len(),
            is_upper(old(self).input()[old(self).position()]),
        ensures
            final(self).input() == old(self).input(),
            final(self).position() == letters_end(old(self).input(), old(self).position() + 1),
            result matches Some(token) && token@ == TokenView::Symbol(
                old(self).input().subrange(old(self).position(), final(self).position()),
            ),
    {
        proof {
            use_type_invariant(&*self);
        }
        let length = self.chars.len();
        let mut end: usize = self.cursor + 1;
        while end < length && 'a' <= self.chars[end] && self.chars[end] <= 'z'
            invariant
                length == self.chars@.len(),
                self.cursor < end <= self.chars@.len(),
                letters_end(self.chars@, end as int) == letters_end(
                    self.chars@,
                    self.cursor + 1,
                ),
            decreases self.chars@.len() - end,
        {
            end = end + 1;
        }
        let symbol = self.formula.substring_char(self.cursor, end);
        self.cursor = end;
        Some(Token::Symbol(symbol))
    }

    /// Reads a number, where a digit stands at the cursor.
    fn number(&mut self) -> (result: Option<Token<'a>>)
        requires
            0 <= old(self).position() < old(self).input().len(),
            is_digit(old(self).input()[old(self).position()]),
        ensures
            final(self).input() == old(self).input(),
            final(self).position() == digits_end(old(self).input(), old(self).position() + 1),
            result matches Some(token) && token@ == TokenView::Number(
                old(self).input().subrange(old(self).position(), final(self).position()),
            ),
    {
        proof {
            use_type_invariant(&*self);
        }
        let length = self.chars.len();
        let mut end: usize = self.cursor + 1;
        while end < length && '0' <= self.chars[end] && self.chars[end] <= '9'
            invariant
                length == self.chars@.len(),
                self.cursor < end <= self.chars@.len(),
                digits_end(self.chars@, end as int) == digits_end(
                    self.chars@,
                    self.cursor + 1,
                ),
            decreases self.chars@.len() - end,
        {
            end = end + 1;
        }
        let number = self.formula.substring_char(self.cursor, end);
        self.cursor = end;
        Some(Token::Number(number))
    }

    /// Reads `(`, `)` or `*` where one of them stands at the cursor, and
    /// leaves the cursor where it is otherwise.
    fn terminal(&mut self) -> (result: Option<Token<'a>>)
        ensures
            final(self).input() == old(self).input(),
            match result {
                Some(token) => {
                    &&& 0 <= old(self).position() < old(self).input().len()
                    &&& final(self).position() == old(self).position() + 1
                    &&& token@ == match old(self).input()[old(self).position()] {
                        '(' => TokenView::LParen,
                        ')' => TokenView::RParen,
                        _ => TokenView::Asterisk,
                    }
                    &&& {
                        let found = old(self).input()[old(self).position()];
                        found == '(' || found == ')' || found == '*'
                    }
                },
                None => {
                    &&& final(self).position() == old(self).position()
                    &&& 0 <= old(self).position() < old(self).input().len() ==> {
                        let found = old(self).input()[old(self).position()];
                        found != '(' && found != ')' && found != '*'
                    }
                },
            },
    {
        proof {
            use_type_invariant(&*self);
        }
        if self.cursor >= self.chars.len() {
            return None;
        }
        let found = self.chars[self.cursor];
        let token = if found == '(' {
            Some(Token::LParen)
        } else if found == ')' {
            Some(Token::RParen)
        } else if found == '*' {
            Some(Token::Asterisk)
        } else {
            None
        };
        if token.is_some() {
            self.cursor = self.cursor + 1;
        }
        token
    }
}

} // verus!
