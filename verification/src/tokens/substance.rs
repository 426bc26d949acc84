use crate::tokens::component::{
    component_views, flatten, lemma_component_views_push, lemma_flatten_positive,
    positive_components, scalable, Component, ComponentView,
};
use crate::tokens::element::{
    all_positive, checked_multiply_all, element_views, lemma_scaled_positive, scaled, within,
    Element, ElementView,
};
use crate::tokens::group::checked_flatten;
use crate::tokens::hydrate::{water, Hydrate, HydrateView};
use vstd::prelude::*;

verus! {

/// A whole formula: a coefficient, the components in their order, and the
/// hydrate where there is one.
#[derive(Debug, PartialEq)]
pub struct Substance {
    coefficient: usize,
    composition: Vec<Component>,
    hydrate: Option<Hydrate>,
}

/// A `Substance` whose numbers are natural numbers of any size.
pub struct SubstanceView {
    pub coefficient: nat,
    pub composition: Seq<ComponentView>,
    pub hydrate: Option<HydrateView>,
}

impl SubstanceView {
    /// The elements of the hydrate with the coefficient of the substance
    /// multiplied in; none where the substance has no hydrate.
    pub open spec fn hydrate_elements(self) -> Seq<ElementView> {
        match self.hydrate {
            Some(hydrate) => scaled(hydrate.elements(), self.coefficient),
            None => Seq::empty(),
        }
    }

    /// The elements of the substance: those of its components in the order in
    /// which they are written, then hydrogen and oxygen of the hydrate, each
    /// with all the multipliers around it multiplied in. An element that is
    /// written twice is listed twice.
    pub open spec fn elements(self) -> Seq<ElementView> {
        scaled(flatten(self.composition), self.coefficient) + self.hydrate_elements()
    }

    /// Whether the coefficient of the substance, every subscript in it and the
    /// coefficient of its hydrate are at least 1.
    pub open spec fn positive(self) -> bool {
        &&& self.coefficient >= 1
        &&& positive_components(self.composition)
        &&& self.hydrate matches Some(hydrate) ==> hydrate.positive()
    }

    /// Whether the elements of the substance can be listed in machine
    /// integers: its groups and its hydrate fit, and no multiplied subscript
    /// is larger than `usize::MAX`.
    pub open spec fn fits(self) -> bool {
        &&& scalable(self.composition, self.coefficient)
        &&& self.hydrate matches Some(hydrate) ==> {
            &&& hydrate.fits()
            &&& within(self.hydrate_elements(), usize::MAX as nat)
        }
    }
}

/// Where no coefficient and no subscript of a substance is zero, every element
/// that it lists has atoms.
pub proof fn lemma_substance_positive(substance: SubstanceView)
    requires
        substance.positive(),
    ensures
        all_positive(substance.elements()),
{
    lemma_flatten_positive(substance.composition);
    lemma_scaled_positive(flatten(substance.composition), substance.coefficient);
    let left = scaled(flatten(substance.composition), substance.coefficient);
    let right = substance.hydrate_elements();
    if let Some(hydrate) = substance.hydrate {
        assert(all_positive(water()));
        lemma_scaled_positive(water(), hydrate.coefficient);
        lemma_scaled_positive(hydrate.elements(), substance.coefficient);
    }
    assert forall|i: int| 0 <= i < (left + right).len() implies (#[trigger] (left + right)[i]).subscript
        >= 1 by {
        if i < left.len() {
            assert((left + right)[i] == left[i]);
        } else {
            assert((left + right)[i] == right[i - left.len()]);
        }
    }
}

impl View for Substance {
    type V = SubstanceView;

    closed spec fn view(&self) -> SubstanceView {
        SubstanceView {
            coefficient: self.coefficient as nat,
            composition: component_views(self.composition@),
            hydrate: match self.hydrate {
                Some(hydrate) => Some(hydrate@),
                None => None,
            },
        }
    }
}

impl Substance {
    /// A substance with the coefficient 1, no components and no hydrate.
    pub fn new() -> (substance: Self)
        ensures
            substance@ == (SubstanceView {
                coefficient: 1,
                composition: Seq::empty(),
                hydrate: None,
            }),
    {
        Self { coefficient: 1, composition: Vec::new(), hydrate: None }
    }

    /// The substance with the given coefficient, components and hydrate.
    pub fn from(coefficient: usize, composition: Vec<Component>, hydrate: Option<Hydrate>) -> (substance:
        Self)
        ensures
            substance@ == (SubstanceView {
                coefficient: coefficient as nat,
                composition: component_views(composition@),
                hydrate: match hydrate {
                    Some(hydrate) => Some(hydrate@),
                    None => None,
                },
            }),
    {
        Self { coefficient, composition, hydrate }
    }

    /// Sets the coefficient of the substance.
    pub fn add_coefficient(&mut self, coefficient: usize)
        ensures
            final(self)@ == (SubstanceView { coefficient: coefficient as nat, ..old(self)@ }),
    {
        self.coefficient = coefficient;
    }

    /// Puts `component` at the end of the substance.
    pub fn add_component(&mut self, component: Component)
        ensures
            final(self)@ == (SubstanceView {
                composition: old(self)@.composition.push(component@),
                ..old(self)@
            }),
    {
        self.composition.push(component);
        proof {
            lemma_component_views_push(old(self).composition@, component);
        }
    }

    /// Sets the hydrate of the substance.
    pub fn add_hydrate(&mut self, hydrate: Hydrate)
        ensures
            final(self)@ == (SubstanceView { hydrate: Some(hydrate@), ..old(self)@ }),
    {
        self.hydrate = Some(hydrate);
    }

    /// The elements of the substance: those of its components in the order in
    /// which they are written, then those of the hydrate, each with all the
    /// multipliers around it multiplied in. `None` where one of the numbers is
    /// larger than `usize::MAX`.
    pub fn checked_elements(&self) -> (elements: Option<Vec<Element>>)
        ensures
            match elements {
                Some(list) => self@.fits() && element_views(list@) == self@.elements(),
                None => !self@.fits(),
            },
    {
        let mut elements = match checked_flatten(&self.composition, self.coefficient) {
            Some(elements) => elements,
            None => {
                return None;
            },
        };
        if let Some(hydrate) = &self.hydrate {
            let inner = match hydrate.checked_elements() {
                Some(inner) => inner,
                None => {
                    return None;
                },
            };
            let ghost before = element_views(elements@);
            let mut products = match checked_multiply_all(&inner, self.coefficient) {
                Some(products) => products,
                None => {
                    return None;
                },
            };
            let ghost added = products@;
            elements.append(&mut products);
            assert(element_views(elements@) =~= before + element_views(added));
        } else {
            assert(element_views(elements@) + Seq::<ElementView>::empty() =~= element_views(
                elements@,
            ));
        }
        Some(elements)
    }

    /// The elements of the substance: those of its components in the order in
    /// which they are written, then those of the hydrate, each with all the
    /// multipliers around it multiplied in.
    pub fn elements(&self) -> (elements: Vec<Element>)
        requires
            self@.fits(),
        ensures
            element_views(elements@) == self@.elements(),
    {
        self.checked_elements().unwrap()
    }
}

} // verus!
