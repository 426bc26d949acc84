use crate::chemistry::element::MAX_ATOMIC_WEIGHT;
use crate::chemistry::table::element_named;
use crate::chemistry::{Element, Table};
use crate::tokens::element::ElementView;
use vstd::prelude::*;

verus! {

/// A chemical symbol of a formula with its subscript.
#[derive(Copy, Clone, Debug, PartialEq)]
pub struct Symbol {
    element: Element,
    subscript: usize,
}

impl View for Symbol {
    type V = ElementView;

    closed spec fn view(&self) -> ElementView {
        ElementView { chemical_element: self.element, subscript: self.subscript as nat }
    }
}

impl Symbol {
    /// `subscript` atoms of `element`.
    pub fn new(element: Element, subscript: usize) -> (symbol: Self)
        ensures
            symbol@ == (ElementView { chemical_element: element, subscript: subscript as nat }),
    {
        Self { element, subscript }
    }

    /// `subscript` atoms of the element that `symbol` names.
    pub fn from(symbol: &str, subscript: usize) -> (made: Self)
        requires
            element_named(symbol@) is Some,
        ensures
            made@ == (ElementView {
                chemical_element: element_named(symbol@).unwrap(),
                subscript: subscript as nat,
            }),
    {
        let table = Table::new();
        Self::new(table.lookup(symbol).unwrap(), subscript)
    }

    /// The same symbol with `coefficient` times the atoms.
    pub fn multiply(symbol: &Self, coefficient: usize) -> (product: Self)
        requires
            symbol@.subscript * coefficient <= usize::MAX,
        ensures
            product@ == symbol@.times(coefficient as nat),
    {
        Self { element: symbol.element(), subscript: symbol.subscript() * coefficient }
    }

    /// The chemical element.
    pub fn element(&self) -> (element: Element)
        ensures
            element == self@.chemical_element,
    {
        self.element
    }

    /// The number of atoms.
    pub fn subscript(&self) -> (subscript: usize)
        ensures
            subscript == self@.subscript,
    {
        self.subscript
    }

    /// The weight of these atoms, in ten-thousandths of a dalton.
    pub fn molar_mass(&self) -> (mass: u128)
        ensures
            mass == self@.mass(),
    {
        let weight = self.element.atomic_weight();
        assert(weight * self.subscript <= MAX_ATOMIC_WEIGHT * usize::MAX) by (nonlinear_arith)
            requires
                weight <= MAX_ATOMIC_WEIGHT,
                self.subscript <= usize::MAX,
        ;
        weight as u128 * self.subscript as u128
    }
}

} // verus!
