//! Reads chemical formulas such as `MgSO4*7H2O`.
//!
//! For a formula that the grammar accepts, `parse` gives the compound: its
//! chemical elements with the number of atoms of each, the molar mass, and the
//! part that each element is of that mass.
//!
//! All numbers are whole. Masses are counted in ten-thousandths of a dalton,
//! which is exact for every atomic weight of the table, and mass percentages
//! in millionths of a percent, rounded down.
pub mod chemistry;
pub mod compounds;
pub mod error;
pub mod grammar;
pub mod parser;
pub mod text;
pub mod tokenizer;
pub mod tokens;

pub use chemistry::ChemicalElement;
pub use compounds::{Component, Compound};
pub use error::Error;
pub use tokens::Element;

use chemistry::Table;
use compounds::component::PERCENT_SCALE;
use compounds::compound::{
    compound_of, countable, lemma_mass_positive, lemma_percentages_add_up, mass_of,
    total_percent, CompoundView,
};
use error::ErrorView;
use parser::Parser;
use tokens::element::all_positive;
use tokens::substance::lemma_substance_positive;
use vstd::prelude::*;

verus! {

/// The compound that a formula describes, or why it describes none.
///
/// The formula is read by the grammar; what is wrong with it by the grammar is
/// the error. A formula that the grammar accepts but whose atoms cannot be
/// counted in machine integers is an overflow.
pub open spec fn described(formula: Seq<char>) -> Result<CompoundView, ErrorView> {
    match grammar::parsed(formula, 0) {
        Ok(substance) => if substance.fits() && countable(substance.elements()) {
            Ok(compound_of(substance.elements()))
        } else {
            Err(ErrorView::Overflow)
        },
        Err(error) => Err(error),
    }
}

/// The model of what `parse` returned.
pub open spec fn outcome(result: Result<Compound, Error>) -> Result<CompoundView, ErrorView> {
    match result {
        Ok(compound) => Ok(compound@),
        Err(error) => Err(error@),
    }
}

/// Reads `formula` and gives the compound that it describes, or the first
/// error in it.
pub fn parse(formula: &str) -> (result: Result<Compound, Error>)
    ensures
        outcome(result) == described(formula@),
{
    let table = Table::new();
    let mut parser = Parser::new(&table, formula);
    let substance = parser.parse()?;
    match Compound::checked_from(substance) {
        Some(compound) => Ok(compound),
        None => Err(Error::Overflow),
    }
}

/// The molar mass of the compound that a formula describes is the mass of all
/// the atoms that the formula lists, those of the hydrate among them: for
/// every place where an element stands, its atomic weight times the atoms
/// there.
pub proof fn lemma_molar_mass(formula: Seq<char>)
    ensures
        described(formula) matches Ok(compound) ==> {
            &&& grammar::parsed(formula, 0) matches Ok(substance)
            &&& compound.molar_mass == mass_of(substance.elements())
        },
{
}

/// No coefficient and no subscript that a formula holds is zero, so every
/// element that it lists has atoms, and a compound with a component has mass.
pub proof fn lemma_has_mass(formula: Seq<char>)
    ensures
        described(formula) matches Ok(compound) ==> {
            &&& grammar::parsed(formula, 0) matches Ok(substance)
            &&& substance.positive()
            &&& all_positive(substance.elements())
            &&& compound.components.len() > 0 ==> compound.molar_mass > 0
        },
{
    if let Ok(substance) = grammar::parsed(formula, 0) {
        grammar::lemma_parsed_positive(formula, 0);
        lemma_substance_positive(substance);
        if substance.elements().len() > 0 {
            lemma_mass_positive(substance.elements());
        }
    }
}

/// The mass percentages of the compound that a formula describes add up to
/// one hundred percent, less the rounding: fewer millionths of a percent than
/// the compound has components. This holds of every compound that has a
/// component.
pub proof fn lemma_mass_percentages(formula: Seq<char>)
    ensures
        described(formula) matches Ok(compound) ==> compound.components.len() > 0 ==> {
            &&& total_percent(compound.components) <= 100 * PERCENT_SCALE
            &&& 100 * PERCENT_SCALE < total_percent(compound.components)
                + compound.components.len()
        },
{
    lemma_has_mass(formula);
    if let Ok(substance) = grammar::parsed(formula, 0) {
        if mass_of(substance.elements()) > 0 {
            lemma_percentages_add_up(substance.elements());
        }
    }
}

} // verus!
