use crate::chemistry::ChemicalElement;
use crate::tokens::element::{element_views, scaled, within, Element, ElementView};
use vstd::prelude::*;

verus! {

/// Water of crystallisation: what a formula holds after `*`, a number of
/// molecules of water. The two elements of water are the same in every
/// hydrate, so only the number is kept.
#[derive(Debug, PartialEq)]
pub struct Hydrate {
    coefficient: usize,
}

/// A `Hydrate` whose coefficient is any natural number.
pub struct HydrateView {
    pub coefficient: nat,
}

/// The elements of one molecule of water: two atoms of hydrogen, then one of
/// oxygen.
pub open spec fn water() -> Seq<ElementView> {
    seq![
        ElementView { chemical_element: ChemicalElement::Hydrogen, subscript: 2 },
        ElementView { chemical_element: ChemicalElement::Oxygen, subscript: 1 },
    ]
}

impl HydrateView {
    /// The elements of the hydrate: hydrogen, then oxygen, each with the
    /// coefficient multiplied in.
    pub open spec fn elements(self) -> Seq<ElementView> {
        scaled(water(), self.coefficient)
    }

    /// Whether the hydrate holds at least one molecule of water.
    pub open spec fn positive(self) -> bool {
        self.coefficient >= 1
    }

    /// Whether the elements of the hydrate can be listed in machine integers.
    pub open spec fn fits(self) -> bool {
        within(self.elements(), usize::MAX as nat)
    }
}

impl View for Hydrate {
    type V = HydrateView;

    closed spec fn view(&self) -> HydrateView {
        HydrateView { coefficient: self.coefficient as nat }
    }
}

impl Hydrate {
    /// One molecule of water.
    pub fn new() -> (hydrate: Self)
        ensures
            hydrate@ == (HydrateView { coefficient: 1 }),
    {
        Self { coefficient: 1 }
    }

    /// `coefficient` molecules of water.
    pub fn from(coefficient: usize) -> (hydrate: Self)
        ensures
            hydrate@ == (HydrateView { coefficient: coefficient as nat }),
    {
        Self { coefficient }
    }

    /// Sets the number of molecules of water.
    pub fn add_coefficient(&mut self, coefficient: usize)
        ensures
            final(self)@ == (HydrateView { coefficient: coefficient as nat }),
    {
        self.coefficient = coefficient;
    }

    /// The elements of the hydrate: hydrogen, then oxygen, each with the
    /// coefficient multiplied in. `None` where one of the numbers is larger
    /// than `usize::MAX`.
    pub fn checked_elements(&self) -> (elements: Option<Vec<Element>>)
        ensures
            match elements {
                Some(list) => self@.fits() && element_views(list@) == self@.elements(),
                None => !self@.fits(),
            },
    {
        let hydrogen = Element::new(ChemicalElement::Hydrogen, 2);
        let oxygen = Element::new(ChemicalElement::Oxygen, 1);
        let hydrogen = match Element::checked_multiply(&hydrogen, self.coefficient) {
            Some(product) => product,
            None => {
                assert(self@.elements()[0].subscript > usize::MAX);
                return None;
            },
        };
        let oxygen = match Element::checked_multiply(&oxygen, self.coefficient) {
            Some(product) => product,
            None => {
                assert(self@.elements()[1].subscript > usize::MAX);
                return None;
            },
        };
        let mut elements: Vec<Element> = Vec::new();
        elements.push(hydrogen);
        elements.push(oxygen);
        assert(element_views(elements@) =~= self@.elements());
        Some(elements)
    }

    /// The elements of the hydrate: hydrogen, then oxygen, each with the
    /// coefficient multiplied in.
    pub fn elements(&self) -> (elements: Vec<Element>)
        requires
            self@.fits(),
        ensures
            element_views(elements@) == self@.elements(),
    {
        self.checked_elements().unwrap()
    }
}

} // verus!
