use vstd::prelude::*;

verus! {

/// Why a formula was turned down.
#[derive(Debug, PartialEq, Eq)]
pub enum Error {
    /// A character or token that the grammar does not allow where it stands,
    /// with the position of its first character, counted from zero. A
    /// coefficient or subscript that stands for zero is such a token.
    UnexpectedToken(String, usize),
    /// The formula ended where the given token was still needed, or where a
    /// `component` was.
    UnexpectedEnd(String),
    /// A well-formed symbol that names no chemical element, with the position
    /// of its first character, counted from zero.
    UnknownElement(String, usize),
    /// What follows `*` and its coefficient is not water, `H2O`.
    IncorrectHydrate,
    /// A number in the formula, or a count of atoms that follows from it, is
    /// larger than the machine can hold.
    Overflow,
}

/// An `Error` with its texts as sequences of characters.
pub enum ErrorView {
    UnexpectedToken(Seq<char>, nat),
    UnexpectedEnd(Seq<char>),
    UnknownElement(Seq<char>, nat),
    IncorrectHydrate,
    Overflow,
}

impl View for Error {
    type V = ErrorView;

    open spec fn view(&self) -> ErrorView {
        match self {
            Error::UnexpectedToken(text, position) => ErrorView::UnexpectedToken(
                text@,
                *position as nat,
            ),
            Error::UnexpectedEnd(expected) => ErrorView::UnexpectedEnd(expected@),
            Error::UnknownElement(text, position) => ErrorView::UnknownElement(
                text@,
                *position as nat,
            ),
            Error::IncorrectHydrate => ErrorView::IncorrectHydrate,
            Error::Overflow => ErrorView::Overflow,
        }
    }
}

} // verus!
