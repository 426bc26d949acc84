use crate::chemistry::element::MAX_ATOMIC_WEIGHT;
use crate::chemistry::ChemicalElement;
use crate::tokens::Element;
use vstd::prelude::*;

verus! {

/// How many units of a mass percentage make one percent: percentages are held
/// as whole numbers of millionths of a percent.
pub const PERCENT_SCALE: u128 = 1_000_000;

/// One element of a compound: how many atoms of it the compound holds, and
/// which part of the compound's mass they are.
#[derive(Copy, Clone, Debug, PartialEq)]
pub struct Component {
    chemical_element: ChemicalElement,
    atoms_count: usize,
    mass_percent: u128,
}

/// A `Component` whose numbers are natural numbers of any size.
pub struct ComponentView {
    pub chemical_element: ChemicalElement,
    pub atoms_count: nat,
    pub mass_percent: nat,
}

impl ComponentView {
    /// The mass of the atoms, in ten-thousandths of a dalton.
    pub open spec fn mass(self) -> nat {
        self.chemical_element.spec_atomic_weight() * self.atoms_count
    }
}

/// The part that `mass` is of `compound_mass`, in millionths of a percent and
/// rounded down; zero where the compound has no mass.
pub open spec fn percent_of(mass: nat, compound_mass: nat) -> nat {
    if compound_mass == 0 {
        0
    } else {
        (mass * 100 * PERCENT_SCALE as nat) / compound_mass
    }
}

impl View for Component {
    type V = ComponentView;

    closed spec fn view(&self) -> ComponentView {
        ComponentView {
            chemical_element: self.chemical_element,
            atoms_count: self.atoms_count as nat,
            mass_percent: self.mass_percent as nat,
        }
    }
}

/// The views of a sequence of components, in the same order.
pub open spec fn component_views(components: Seq<Component>) -> Seq<ComponentView> {
    components.map_values(|component: Component| component@)
}

impl Component {
    /// The numbers of a component are machine integers.
    pub proof fn lemma_bounded(&self)
        ensures
            self@.atoms_count <= usize::MAX,
            self@.mass_percent <= u128::MAX,
    {
    }

    /// The atoms of `element`, with no mass percentage yet.
    pub fn from(element: Element) -> (component: Self)
        ensures
            component@ == (ComponentView {
                chemical_element: element@.chemical_element,
                atoms_count: element@.subscript,
                mass_percent: 0,
            }),
    {
        Self {
            chemical_element: element.chemical_element(),
            atoms_count: element.subscript(),
            mass_percent: 0,
        }
    }

    /// Adds `atoms_count` atoms.
    pub fn add_atoms(&mut self, atoms_count: usize)
        requires
            old(self)@.atoms_count + atoms_count <= usize::MAX,
        ensures
            final(self)@ == (ComponentView {
                atoms_count: old(self)@.atoms_count + atoms_count as nat,
                ..old(self)@
            }),
    {
        self.atoms_count = self.atoms_count + atoms_count;
    }

    /// Sets the mass percentage to the part that the mass of the atoms is of
    /// `compound_mass`.
    pub fn calculate_mass_percent(&mut self, compound_mass: u128)
        ensures
            final(self)@ == (ComponentView {
                mass_percent: percent_of(old(self)@.mass(), compound_mass as nat),
                ..old(self)@
            }),
    {
        if compound_mass == 0 {
            self.mass_percent = 0;
        } else {
            let mass = self.mass();
            assert(mass * 100 * PERCENT_SCALE <= u128::MAX) by (nonlinear_arith)
                requires
                    mass <= MAX_ATOMIC_WEIGHT * usize::MAX,
                    usize::MAX <= u64::MAX,
            ;
            self.mass_percent = mass * 100 * PERCENT_SCALE / compound_mass;
        }
    }

    /// The mass of the atoms, in ten-thousandths of a dalton.
    pub fn mass(&self) -> (mass: u128)
        ensures
            mass == self@.mass(),
            mass <= MAX_ATOMIC_WEIGHT * usize::MAX,
    {
        let weight = self.chemical_element.atomic_weight();
        assert(weight * self.atoms_count <= MAX_ATOMIC_WEIGHT * usize::MAX) by (nonlinear_arith)
            requires
                weight <= MAX_ATOMIC_WEIGHT,
                self.atoms_count <= usize::MAX,
        ;
        weight as u128 * self.atoms_count as u128
    }

    /// The part that the atoms are of the compound's mass, in millionths of a
    /// percent.
    pub fn mass_percent(&self) -> (mass_percent: u128)
        ensures
            mass_percent == self@.mass_percent,
    {
        self.mass_percent
    }

    /// The chemical element.
    pub fn chemical_element(&self) -> (chemical_element: ChemicalElement)
        ensures
            chemical_element == self@.chemical_element,
    {
        self.chemical_element
    }

    /// The number of atoms of the element in the compound.
    pub fn atoms_count(&self) -> (atoms_count: usize)
        ensures
            atoms_count == self@.atoms_count,
    {
        self.atoms_count
    }
}

} // verus!
