use crate::chemistry::table::element_named;
use crate::chemistry::{ChemicalElement, Table};
use vstd::prelude::*;

verus! {

/// A chemical element with the number of its atoms: one symbol of a formula
/// with its subscript, or what became of it when the multipliers around it were
/// applied.
#[derive(Copy, Clone, Debug, PartialEq)]
pub struct Element {
    chemical_element: ChemicalElement,
    subscript: usize,
}

/// An `Element` whose subscript is any natural number.
pub struct ElementView {
    pub chemical_element: ChemicalElement,
    pub subscript: nat,
}

impl ElementView {
    /// The same element with `coefficient` times the atoms.
    pub open spec fn times(self, coefficient: nat) -> ElementView {
        ElementView {
            chemical_element: self.chemical_element,
            subscript: self.subscript * coefficient,
        }
    }

    /// The weight of these atoms, in ten-thousandths of a dalton.
    pub open spec fn mass(self) -> nat {
        self.chemical_element.spec_atomic_weight() * self.subscript
    }
}

impl View for Element {
    type V = ElementView;

    closed spec fn view(&self) -> ElementView {
        ElementView { chemical_element: self.chemical_element, subscript: self.subscript as nat }
    }
}

/// The views of a sequence of elements, in the same order.
pub open spec fn element_views(elements: Seq<Element>) -> Seq<ElementView> {
    elements.map_values(|element: Element| element@)
}

/// Every element of `elements` with `coefficient` times its atoms.
pub open spec fn scaled(elements: Seq<ElementView>, coefficient: nat) -> Seq<ElementView> {
    elements.map_values(|element: ElementView| element.times(coefficient))
}

/// Whether no element of `elements` has more than `limit` atoms.
pub open spec fn within(elements: Seq<ElementView>, limit: nat) -> bool {
    forall|i: int| 0 <= i < elements.len() ==> (#[trigger] elements[i]).subscript <= limit
}

/// Whether every element of `elements` has at least one atom.
pub open spec fn all_positive(elements: Seq<ElementView>) -> bool {
    forall|i: int| 0 <= i < elements.len() ==> (#[trigger] elements[i]).subscript >= 1
}

/// Elements that have atoms still have atoms when they are multiplied by a
/// coefficient that is not zero.
pub proof fn lemma_scaled_positive(elements: Seq<ElementView>, coefficient: nat)
    requires
        all_positive(elements),
        coefficient >= 1,
    ensures
        all_positive(scaled(elements, coefficient)),
{
    assert forall|i: int| 0 <= i < elements.len() implies (#[trigger] scaled(
        elements,
        coefficient,
    )[i]).subscript >= 1 by {
        assert(elements[i].subscript >= 1);
        assert(elements[i].subscript * coefficient >= 1) by (nonlinear_arith)
            requires
                elements[i].subscript >= 1,
                coefficient >= 1,
        ;
    }
}

/// Every element of `elements` with `coefficient` times its atoms, in the same
/// order. `None` where one of the numbers is larger than `usize::MAX`.
pub fn checked_multiply_all(elements: &Vec<Element>, coefficient: usize) -> (products: Option<
    Vec<Element>,
>)
    ensures
        match products {
            Some(list) => {
                &&& within(scaled(element_views(elements@), coefficient as nat), usize::MAX as nat)
                &&& element_views(list@) == scaled(element_views(elements@), coefficient as nat)
            },
            None => !within(scaled(element_views(elements@), coefficient as nat), usize::MAX as nat),
        },
{
    let ghost listed = element_views(elements@);
    let mut products: Vec<Element> = Vec::new();
    let mut at: usize = 0;
    while at < elements.len()
        invariant
            at <= elements@.len(),
            listed == element_views(elements@),
            forall|i: int|
                0 <= i < at ==> (#[trigger] listed[i]).subscript * coefficient <= usize::MAX,
            element_views(products@) == scaled(listed.take(at as int), coefficient as nat),
        decreases elements@.len() - at,
    {
        match Element::checked_multiply(&elements[at], coefficient) {
            Some(product) => {
                let ghost prior = products@;
                products.push(product);
                assert(element_views(products@) =~= element_views(prior).push(product@));
                assert(scaled(listed.take(at + 1), coefficient as nat) =~= scaled(
                    listed.take(at as int),
                    coefficient as nat,
                ).push(listed[at as int].times(coefficient as nat)));
            },
            None => {
                assert(scaled(listed, coefficient as nat)[at as int].subscript > usize::MAX);
                return None;
            },
        }
        at = at + 1;
    }
    proof {
        assert(listed.take(at as int) =~= listed);
        assert forall|i: int| 0 <= i < listed.len() implies (#[trigger] scaled(
            listed,
            coefficient as nat,
        )[i]).subscript <= usize::MAX by {
            assert(listed[i].subscript * coefficient <= usize::MAX);
        }
    }
    Some(products)
}

impl Element {
    /// `subscript` atoms of `chemical_element`.
    pub fn new(chemical_element: ChemicalElement, subscript: usize) -> (element: Self)
        ensures
            element@ == (ElementView { chemical_element, subscript: subscript as nat }),
    {
        Self { chemical_element, subscript }
    }

    /// `subscript` atoms of the element that `symbol` names.
    pub fn from(symbol: &str, subscript: usize) -> (element: Self)
        requires
            element_named(symbol@) is Some,
        ensures
            element@ == (ElementView {
                chemical_element: element_named(symbol@).unwrap(),
                subscript: subscript as nat,
            }),
    {
        let table = Table::new();
        Self::new(table.lookup(symbol).unwrap(), subscript)
    }

    /// The same element with `coefficient` times the atoms.
    pub fn multiply(symbol: &Self, coefficient: usize) -> (product: Self)
        requires
            symbol@.subscript * coefficient <= usize::MAX,
        ensures
            product@ == symbol@.times(coefficient as nat),
    {
        Self {
            chemical_element: symbol.chemical_element(),
            subscript: symbol.subscript() * coefficient,
        }
    }

    /// The same element with `coefficient` times the atoms, or `None` where
    /// that number is larger than `usize::MAX`.
    pub fn checked_multiply(symbol: &Self, coefficient: usize) -> (product: Option<Self>)
        ensures
            match product {
                Some(element) => {
                    &&& symbol@.subscript * coefficient <= usize::MAX
                    &&& element@ == symbol@.times(coefficient as nat)
                },
                None => symbol@.subscript * coefficient > usize::MAX,
            },
    {
        match symbol.subscript.checked_mul(coefficient) {
            Some(subscript) => Some(Self { chemical_element: symbol.chemical_element, subscript }),
            None => None,
        }
    }

    /// The number of atoms.
    pub fn subscript(&self) -> (subscript: usize)
        ensures
            subscript == self@.subscript,
    {
        self.subscript
    }

    /// The chemical element.
    pub fn chemical_element(&self) -> (chemical_element: ChemicalElement)
        ensures
            chemical_element == self@.chemical_element,
    {
        self.chemical_element
    }
}

} // verus!
