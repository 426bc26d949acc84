use crate::chemistry::element::{lemma_weight_positive, MAX_ATOMIC_WEIGHT};
use crate::chemistry::ChemicalElement;
use crate::compounds::component::{
    component_views, percent_of, Component, ComponentView, PERCENT_SCALE,
};
use crate::tokens::element::{all_positive, element_views, ElementView};
use crate::tokens::{Element, Substance};
use vstd::prelude::*;
use vstd::set_lib::{lemma_int_range, lemma_len_subset, set_int_range};

verus! {

/// What a formula describes: the elements of the substance, each once, in the
/// order in which the formula first names them, and the molar mass.
#[derive(Debug, PartialEq)]
pub struct Compound {
    components: Vec<Component>,
    molar_mass: u128,
}

/// A `Compound` whose numbers are natural numbers of any size.
pub struct CompoundView {
    pub components: Seq<ComponentView>,
    pub molar_mass: nat,
}

/// The mass of all of `elements`, in ten-thousandths of a dalton: for every
/// place where an element is listed, its atomic weight times the atoms listed
/// there.
pub open spec fn mass_of(elements: Seq<ElementView>) -> nat
    decreases elements.len(),
{
    if elements.len() == 0 {
        0
    } else {
        mass_of(elements.drop_last()) + elements.last().mass()
    }
}

/// The atoms of `element` in `elements`, over all the places where it is
/// listed.
pub open spec fn count_of(elements: Seq<ElementView>, element: ChemicalElement) -> nat
    decreases elements.len(),
{
    if elements.len() == 0 {
        0
    } else if elements.last().chemical_element == element {
        count_of(elements.drop_last(), element) + elements.last().subscript
    } else {
        count_of(elements.drop_last(), element)
    }
}

/// The chemical elements that `elements` lists, each once, in the order in
/// which they are first listed.
pub open spec fn distinct(elements: Seq<ElementView>) -> Seq<ChemicalElement>
    decreases elements.len(),
{
    if elements.len() == 0 {
        Seq::empty()
    } else if distinct(elements.drop_last()).contains(elements.last().chemical_element) {
        distinct(elements.drop_last())
    } else {
        distinct(elements.drop_last()).push(elements.last().chemical_element)
    }
}

/// Whether the atoms of every element in `elements` can be counted in a
/// machine integer.
pub open spec fn countable(elements: Seq<ElementView>) -> bool {
    forall|element: ChemicalElement| #[trigger] count_of(elements, element) <= usize::MAX
}

/// The component of `element` in the compound of `elements`: all its atoms,
/// and the part that they are of the compound's mass.
pub open spec fn component_of(elements: Seq<ElementView>, element: ChemicalElement) -> ComponentView {
    ComponentView {
        chemical_element: element,
        atoms_count: count_of(elements, element),
        mass_percent: percent_of(
            element.spec_atomic_weight() * count_of(elements, element),
            mass_of(elements),
        ),
    }
}

/// The compound that a list of elements makes: one component for each
/// chemical element, in the order in which they are first listed, and the mass
/// of them all.
pub open spec fn compound_of(elements: Seq<ElementView>) -> CompoundView {
    CompoundView {
        components: distinct(elements).map_values(
            |element: ChemicalElement| component_of(elements, element),
        ),
        molar_mass: mass_of(elements),
    }
}

/// The mass of all of `components`.
pub open spec fn total_mass(components: Seq<ComponentView>) -> nat
    decreases components.len(),
{
    if components.len() == 0 {
        0
    } else {
        total_mass(components.drop_last()) + components.last().mass()
    }
}

/// The sum of the mass percentages of all of `components`.
pub open spec fn total_percent(components: Seq<ComponentView>) -> nat
    decreases components.len(),
{
    if components.len() == 0 {
        0
    } else {
        total_percent(components.drop_last()) + components.last().mass_percent
    }
}

/// The mass of the atoms in `elements` of the chemical elements in `chosen`.
spec fn weighed(chosen: Seq<ChemicalElement>, elements: Seq<ElementView>) -> nat
    decreases chosen.len(),
{
    if chosen.len() == 0 {
        0
    } else {
        weighed(chosen.drop_last(), elements) + chosen.last().spec_atomic_weight() * count_of(
            elements,
            chosen.last(),
        )
    }
}

/// No chemical element stands twice among the distinct ones, and each of them
/// is listed.
pub proof fn lemma_distinct(elements: Seq<ElementView>)
    ensures
        distinct(elements).no_duplicates(),
        forall|element: ChemicalElement|
            distinct(elements).contains(element) <==> exists|i: int|
                0 <= i < elements.len() && (#[trigger] elements[i]).chemical_element == element,
    decreases elements.len(),
{
    if elements.len() > 0 {
        let front = elements.drop_last();
        let last = elements.last().chemical_element;
        lemma_distinct(front);
        assert forall|element: ChemicalElement|
            distinct(elements).contains(element) <==> exists|i: int|
                0 <= i < elements.len() && (#[trigger] elements[i]).chemical_element
                    == element by {
            if distinct(elements).contains(element) {
                if distinct(front).contains(element) {
                    let i = choose|i: int|
                        0 <= i < front.len() && (#[trigger] front[i]).chemical_element == element;
                    assert(elements[i].chemical_element == element);
                } else {
                    assert(element == last);
                    assert(elements[elements.len() - 1].chemical_element == element);
                }
            }
            if exists|i: int|
                0 <= i < elements.len() && (#[trigger] elements[i]).chemical_element == element {
                let i = choose|i: int|
                    0 <= i < elements.len() && (#[trigger] elements[i]).chemical_element == element;
                if i < front.len() {
                    assert(front[i].chemical_element == element);
                    assert(distinct(front).contains(element));
                    if !distinct(front).contains(last) {
                        let at = choose|at: int|
                            0 <= at < distinct(front).len() && distinct(front)[at] == element;
                        assert(distinct(elements)[at] == element);
                    }
                } else {
                    if !distinct(front).contains(last) {
                        assert(distinct(elements)[distinct(front).len() as int] == element);
                    }
                }
            }
        }
    }
}

/// An element that is not listed has no atoms.
proof fn lemma_count_of_absent(elements: Seq<ElementView>, element: ChemicalElement)
    requires
        !distinct(elements).contains(element),
    ensures
        count_of(elements, element) == 0,
    decreases elements.len(),
{
    if elements.len() > 0 {
        let front = elements.drop_last();
        let before = distinct(front);
        if before.contains(elements.last().chemical_element) {
            lemma_count_of_absent(front, element);
        } else {
            assert(distinct(elements).last() == elements.last().chemical_element);
            assert forall|i: int| 0 <= i < before.len() implies before[i] != element by {
                assert(distinct(elements)[i] == before[i]);
            }
            lemma_count_of_absent(front, element);
        }
    }
}

/// The atoms in the first part of a list are no more than those in the whole
/// list.
proof fn lemma_count_of_prefix(elements: Seq<ElementView>, length: int, element: ChemicalElement)
    requires
        0 <= length <= elements.len(),
    ensures
        count_of(elements.take(length), element) <= count_of(elements, element),
    decreases elements.len() - length,
{
    if length < elements.len() {
        lemma_count_of_prefix(elements, length + 1, element);
        assert(elements.take(length + 1).drop_last() =~= elements.take(length));
    } else {
        assert(elements.take(length) =~= elements);
    }
}

/// One more listed element adds its mass where it is among the chosen ones.
proof fn lemma_weighed_push(
    chosen: Seq<ChemicalElement>,
    elements: Seq<ElementView>,
    added: ElementView,
)
    requires
        chosen.no_duplicates(),
    ensures
        weighed(chosen, elements.push(added)) == weighed(chosen, elements) + if chosen.contains(
            added.chemical_element,
        ) {
            added.mass()
        } else {
            0
        },
    decreases chosen.len(),
{
    assert(elements.push(added).drop_last() =~= elements);
    if chosen.len() > 0 {
        let front = chosen.drop_last();
        let last = chosen.last();
        lemma_weighed_push(front, elements, added);
        let weight = last.spec_atomic_weight();
        if last == added.chemical_element {
            assert(!front.contains(last)) by {
                if front.contains(last) {
                    let i = choose|i: int| 0 <= i < front.len() && front[i] == last;
                    assert(chosen[i] == chosen[chosen.len() - 1]);
                }
            }
            assert(chosen.contains(last)) by {
                assert(chosen[chosen.len() - 1] == last);
            }
            assert(weight * (count_of(elements, last) + added.subscript) == weight * count_of(
                elements,
                last,
            ) + weight * added.subscript) by (nonlinear_arith);
        } else {
            assert(chosen.contains(added.chemical_element) == front.contains(
                added.chemical_element,
            )) by {
                if chosen.contains(added.chemical_element) {
                    let i = choose|i: int|
                        0 <= i < chosen.len() && chosen[i] == added.chemical_element;
                    assert(front[i] == added.chemical_element);
                }
                if front.contains(added.chemical_element) {
                    let i = choose|i: int|
                        0 <= i < front.len() && front[i] == added.chemical_element;
                    assert(chosen[i] == added.chemical_element);
                }
            }
        }
    }
}

/// The atoms of the distinct elements weigh what the list weighs.
proof fn lemma_weighed_distinct(elements: Seq<ElementView>)
    ensures
        weighed(distinct(elements), elements) == mass_of(elements),
    decreases elements.len(),
{
    if elements.len() > 0 {
        let front = elements.drop_last();
        let last = elements.last();
        let before = distinct(front);
        lemma_weighed_distinct(front);
        lemma_distinct(front);
        lemma_distinct(elements);
        assert(front.push(last) =~= elements);
        if before.contains(last.chemical_element) {
            lemma_weighed_push(before, front, last);
        } else {
            lemma_weighed_push(before, front, last);
            lemma_count_of_absent(front, last.chemical_element);
            assert(distinct(elements).drop_last() =~= before);
        }
    }
}

/// The components of a compound weigh what the chosen elements weigh.
proof fn lemma_total_mass_weighed(chosen: Seq<ChemicalElement>, elements: Seq<ElementView>)
    ensures
        total_mass(chosen.map_values(|element: ChemicalElement| component_of(elements, element)))
            == weighed(chosen, elements),
    decreases chosen.len(),
{
    let components = chosen.map_values(|element: ChemicalElement| component_of(elements, element));
    if chosen.len() > 0 {
        lemma_total_mass_weighed(chosen.drop_last(), elements);
        assert(components.drop_last() =~= chosen.drop_last().map_values(
            |element: ChemicalElement| component_of(elements, element),
        ));
    }
}

/// Elements that have atoms have mass.
pub proof fn lemma_mass_positive(elements: Seq<ElementView>)
    requires
        all_positive(elements),
        elements.len() > 0,
    ensures
        mass_of(elements) > 0,
{
    let last = elements.last();
    assert(last == elements[elements.len() - 1]);
    lemma_weight_positive(last.chemical_element);
    assert(last.chemical_element.spec_atomic_weight() * last.subscript >= 1) by (nonlinear_arith)
        requires
            last.chemical_element.spec_atomic_weight() >= 1,
            last.subscript >= 1,
    ;
}

/// The masses of the components of a compound add up to its molar mass.
pub proof fn lemma_masses_add_up(elements: Seq<ElementView>)
    ensures
        total_mass(compound_of(elements).components) == compound_of(elements).molar_mass,
{
    lemma_total_mass_weighed(distinct(elements), elements);
    lemma_weighed_distinct(elements);
}

/// There are no more distinct elements than the periodic table has.
proof fn lemma_distinct_few(chosen: Seq<ChemicalElement>)
    requires
        chosen.no_duplicates(),
    ensures
        chosen.len() <= 118,
{
    let numbers = chosen.map_values(|element: ChemicalElement| element.atomic_number() as int);
    assert(numbers.no_duplicates()) by {
        assert forall|i: int, j: int|
            0 <= i < numbers.len() && 0 <= j < numbers.len() && i != j implies numbers[i]
            != numbers[j] by {
            assert(chosen[i] != chosen[j]);
        }
    }
    numbers.unique_seq_to_set();
    lemma_int_range(1, 119);
    assert(numbers.to_set().subset_of(set_int_range(1, 119))) by {
        assert forall|number: int| numbers.to_set().contains(number) implies set_int_range(
            1,
            119,
        ).contains(number) by {
            let i = choose|i: int| 0 <= i < numbers.len() && numbers[i] == number;
            assert(1 <= chosen[i].atomic_number() <= 118);
        }
    }
    lemma_len_subset(numbers.to_set(), set_int_range(1, 119));
}

/// Elements whose atoms can be counted weigh no more than their number allows.
proof fn lemma_weighed_bound(chosen: Seq<ChemicalElement>, elements: Seq<ElementView>)
    requires
        forall|i: int| 0 <= i < chosen.len() ==> count_of(elements, #[trigger] chosen[i]) <= usize::MAX,
    ensures
        weighed(chosen, elements) <= chosen.len() * (MAX_ATOMIC_WEIGHT * usize::MAX),
    decreases chosen.len(),
{
    if chosen.len() > 0 {
        let front = chosen.drop_last();
        assert forall|i: int| 0 <= i < front.len() implies count_of(elements, #[trigger] front[i])
            <= usize::MAX by {
            assert(front[i] == chosen[i]);
        }
        lemma_weighed_bound(front, elements);
        let weight = chosen.last().spec_atomic_weight();
        let count = count_of(elements, chosen.last());
        assert(count <= usize::MAX) by {
            assert(chosen[chosen.len() - 1] == chosen.last());
        }
        assert(weight * count <= MAX_ATOMIC_WEIGHT * usize::MAX) by (nonlinear_arith)
            requires
                weight <= MAX_ATOMIC_WEIGHT,
                count <= usize::MAX,
        ;
        assert(chosen.len() * (MAX_ATOMIC_WEIGHT * usize::MAX) == front.len() * (MAX_ATOMIC_WEIGHT
            * usize::MAX) + MAX_ATOMIC_WEIGHT * usize::MAX) by (nonlinear_arith)
            requires
                chosen.len() == front.len() + 1,
        ;
    }
}

/// Percentages that are rounded down lose less than one unit each.
proof fn lemma_percent_bounds(components: Seq<ComponentView>, compound_mass: nat)
    requires
        compound_mass > 0,
        forall|i: int|
            0 <= i < components.len() ==> (#[trigger] components[i]).mass_percent == percent_of(
                components[i].mass(),
                compound_mass,
            ),
    ensures
        compound_mass * total_percent(components) <= 100 * PERCENT_SCALE * total_mass(components),
        100 * PERCENT_SCALE * total_mass(components) <= compound_mass * total_percent(components)
            + compound_mass * components.len(),
        components.len() > 0 ==> 100 * PERCENT_SCALE * total_mass(components) < compound_mass
            * total_percent(components) + compound_mass * components.len(),
    decreases components.len(),
{
    if components.len() > 0 {
        let front = components.drop_last();
        assert forall|i: int| 0 <= i < front.len() implies (#[trigger] front[i]).mass_percent
            == percent_of(front[i].mass(), compound_mass) by {
            assert(front[i] == components[i]);
        }
        lemma_percent_bounds(front, compound_mass);
        let last = components.last();
        assert(last == components[components.len() - 1]);
        let scaled = last.mass() * 100 * PERCENT_SCALE as nat;
        let percent = last.mass_percent;
        assert(percent == scaled / compound_mass);
        assert(compound_mass * percent <= scaled && scaled < compound_mass * percent
            + compound_mass) by (nonlinear_arith)
            requires
                compound_mass > 0,
                percent == scaled / compound_mass,
        ;
        let before = total_percent(front);
        let weight = total_mass(front);
        assert(compound_mass * (before + percent) == compound_mass * before + compound_mass
            * percent) by (nonlinear_arith);
        assert(100 * PERCENT_SCALE * (weight + last.mass()) == 100 * PERCENT_SCALE * weight
            + last.mass() * 100 * PERCENT_SCALE) by (nonlinear_arith);
        assert(compound_mass * components.len() == compound_mass * front.len() + compound_mass)
            by (nonlinear_arith)
            requires
                components.len() == front.len() + 1,
        ;
    }
}

/// The mass percentages of a compound with mass add up to one hundred percent
/// but for the rounding: each component's percentage is rounded down, and so
/// loses less than one millionth of a percent.
pub proof fn lemma_percentages_add_up(elements: Seq<ElementView>)
    requires
        mass_of(elements) > 0,
    ensures
        total_percent(compound_of(elements).components) <= 100 * PERCENT_SCALE,
        100 * PERCENT_SCALE < total_percent(compound_of(elements).components) + compound_of(
            elements,
        ).components.len(),
{
    let compound = compound_of(elements);
    let mass = compound.molar_mass;
    let percent = total_percent(compound.components);
    let count = compound.components.len();
    lemma_masses_add_up(elements);
    lemma_percent_bounds(compound.components, mass);
    assert(count > 0) by {
        if count == 0 {
            assert(total_mass(compound.components) == 0);
        }
    }
    assert(percent <= 100 * PERCENT_SCALE && 100 * PERCENT_SCALE < percent + count)
        by (nonlinear_arith)
        requires
            mass > 0,
            mass * percent <= 100 * PERCENT_SCALE * mass,
            100 * PERCENT_SCALE * mass < mass * percent + mass * count,
    ;
}

impl View for Compound {
    type V = CompoundView;

    closed spec fn view(&self) -> CompoundView {
        CompoundView {
            components: component_views(self.components@),
            molar_mass: self.molar_mass as nat,
        }
    }
}

/// Whether no chemical element has two of `components`.
pub open spec fn one_each(components: Seq<ComponentView>) -> bool {
    forall|i: int, j: int|
        0 <= i < j < components.len() ==> (#[trigger] components[i]).chemical_element != (
        #[trigger] components[j]).chemical_element
}

/// The atoms of a compound while they are counted: the components found so
/// far and the mass of the elements counted in.
struct Tally {
    components: Vec<Component>,
    molar_mass: u128,
}

impl View for Tally {
    type V = CompoundView;

    closed spec fn view(&self) -> CompoundView {
        CompoundView {
            components: component_views(self.components@),
            molar_mass: self.molar_mass as nat,
        }
    }
}

impl Tally {
    /// Whether the compound holds the distinct elements of `elements` with
    /// their atoms and the mass of `elements`, and the mass percentages of its
    /// first `done` components.
    spec fn tallies(&self, elements: Seq<ElementView>, done: int) -> bool {
        let chosen = distinct(elements);
        &&& self.components@.len() == chosen.len()
        &&& self.molar_mass == mass_of(elements)
        &&& forall|i: int|
            0 <= i < chosen.len() ==> (#[trigger] self.components@[i])@ == (ComponentView {
                mass_percent: if i < done {
                    component_of(elements, chosen[i]).mass_percent
                } else {
                    0
                },
                ..component_of(elements, chosen[i])
            })
    }

    /// A tally of nothing.
    fn new() -> (tally: Self)
        ensures
            tally.tallies(Seq::empty(), 0),
    {
        Self { components: Vec::new(), molar_mass: 0 }
    }

    /// Where the component of `chemical_element` stands, or how many
    /// components there are if it has none.
    fn find(&self, chemical_element: ChemicalElement) -> (index: usize)
        ensures
            index <= self.components@.len(),
            index < self.components@.len() ==> self.components@[index as int]@.chemical_element
                == chemical_element,
            forall|i: int|
                0 <= i < index ==> (#[trigger] self.components@[i])@.chemical_element
                    != chemical_element,
    {
        let mut index: usize = 0;
        while index < self.components.len()
            invariant
                index <= self.components@.len(),
                forall|i: int|
                    0 <= i < index ==> (#[trigger] self.components@[i])@.chemical_element
                        != chemical_element,
            decreases self.components@.len() - index,
        {
            if self.components[index].chemical_element() == chemical_element {
                return index;
            }
            index = index + 1;
        }
        index
    }

    /// Counts the atoms of `element` in: with those of its component where the
    /// compound has one, in a new component at the end where it has none. The
    /// result is `false`, and nothing was counted in, where the atoms of the
    /// element would be more than `usize::MAX`.
    fn add_element(&mut self, element: Element, Ghost(seen): Ghost<Seq<ElementView>>) -> (added:
        bool)
        requires
            old(self).tallies(seen, 0),
        ensures
            added ==> final(self).tallies(seen.push(element@), 0),
            !added ==> !countable(seen.push(element@)),
    {
        let ghost listed = seen.push(element@);
        let ghost chosen = distinct(seen);
        let ghost named = element@.chemical_element;
        proof {
            assert(listed.drop_last() =~= seen);
            lemma_distinct(seen);
            lemma_distinct(listed);
            lemma_weighed_distinct(listed);
        }
        let index = self.find(element.chemical_element());
        if index < self.components.len() {
            assert(chosen[index as int] == named);
            assert(distinct(listed) == chosen);
            let mut component = self.components[index];
            match component.atoms_count().checked_add(element.subscript()) {
                Some(_) => {},
                None => {
                    assert(count_of(listed, named) > usize::MAX);
                    return false;
                },
            }
            component.add_atoms(element.subscript());
            self.components.set(index, component);
            assert forall|i: int| 0 <= i < chosen.len() implies (#[trigger] self.components@[i])@
                == (ComponentView { mass_percent: 0, ..component_of(listed, chosen[i]) }) by {
                if i != index {
                    assert(chosen[i] != chosen[index as int]);
                    assert(self.components@[i] == old(self).components@[i]);
                }
            }
        } else {
            assert(!chosen.contains(named)) by {
                if chosen.contains(named) {
                    let i = choose|i: int| 0 <= i < chosen.len() && chosen[i] == named;
                    assert(old(self).components@[i]@.chemical_element == chosen[i]);
                }
            }
            proof {
                lemma_count_of_absent(seen, named);
            }
            self.components.push(Component::from(element));
            assert forall|i: int| 0 <= i < distinct(listed).len() implies (
            #[trigger] self.components@[i])@ == (ComponentView {
                mass_percent: 0,
                ..component_of(listed, distinct(listed)[i])
            }) by {
                if i < chosen.len() {
                    assert(chosen[i] != named);
                    assert(self.components@[i] == old(self).components@[i]);
                }
            }
        }
        proof {
            let after = distinct(listed);
            assert forall|i: int| 0 <= i < after.len() implies count_of(listed, #[trigger] after[i])
                <= usize::MAX by {
                self.components@[i].lemma_bounded();
            }
            lemma_weighed_bound(after, listed);
            lemma_distinct_few(after);
            assert(after.len() * (MAX_ATOMIC_WEIGHT * usize::MAX) <= 118 * (MAX_ATOMIC_WEIGHT
                * usize::MAX)) by (nonlinear_arith)
                requires
                    after.len() <= 118,
            ;
        }
        let weight = element.chemical_element().atomic_weight();
        assert(weight * element@.subscript == element@.mass());
        self.molar_mass = self.molar_mass + weight as u128 * element.subscript() as u128;
        true
    }

    /// Calculates the mass percentage of every component.
    fn calculate_mass_percentage(&mut self, Ghost(elements): Ghost<Seq<ElementView>>)
        requires
            old(self).tallies(elements, 0),
        ensures
            final(self)@ == compound_of(elements),
    {
        let mut index: usize = 0;
        while index < self.components.len()
            invariant
                index <= self.components@.len(),
                self.tallies(elements, index as int),
            decreases self.components@.len() - index,
        {
            let ghost before = self.components@;
            let mut component = self.components[index];
            component.calculate_mass_percent(self.molar_mass);
            self.components.set(index, component);
            assert forall|i: int| 0 <= i < distinct(elements).len() implies (
            #[trigger] self.components@[i])@ == (ComponentView {
                mass_percent: if i < index + 1 {
                    component_of(elements, distinct(elements)[i]).mass_percent
                } else {
                    0
                },
                ..component_of(elements, distinct(elements)[i])
            }) by {
                if i != index {
                    assert(self.components@[i] == before[i]);
                }
            }
            index = index + 1;
        }
        assert(self@.components =~= compound_of(elements).components);
    }
}

impl Clone for Compound {
    /// Another compound with the same components and molar mass.
    fn clone(&self) -> (copy: Self)
        ensures
            copy@ == self@,
    {
        proof {
            use_type_invariant(self);
        }
        let mut components: Vec<Component> = Vec::new();
        let mut index: usize = 0;
        while index < self.components.len()
            invariant
                index <= self.components@.len(),
                components@ == self.components@.take(index as int),
            decreases self.components@.len() - index,
        {
            components.push(self.components[index]);
            assert(self.components@.take(index + 1) =~= self.components@.take(index as int).push(
                self.components@[index as int],
            ));
            index = index + 1;
        }
        assert(self.components@.take(index as int) =~= self.components@);
        Self { components, molar_mass: self.molar_mass }
    }
}

impl Compound {
    /// No chemical element has two components.
    #[verifier::type_invariant]
    spec fn one_component_each(&self) -> bool {
        one_each(component_views(self.components@))
    }

    /// A compound of nothing.
    pub fn new() -> (compound: Self)
        ensures
            compound@ == compound_of(Seq::empty()),
    {
        let compound = Self { components: Vec::new(), molar_mass: 0 };
        assert(compound@.components =~= compound_of(Seq::empty()).components);
        compound
    }

    /// The components, one for each chemical element of the compound, in the
    /// order in which the formula first names them. No chemical element has
    /// two of them.
    pub fn components(&self) -> (components: &Vec<Component>)
        ensures
            component_views(components@) == self@.components,
            one_each(self@.components),
    {
        proof {
            use_type_invariant(self);
        }
        &self.components
    }

    /// The molar mass of the compound, in ten-thousandths of a gram per mole.
    pub fn molar_mass(&self) -> (molar_mass: u128)
        ensures
            molar_mass == self@.molar_mass,
    {
        self.molar_mass
    }

    /// The compound of `substance`: one component for each of its chemical
    /// elements with all the atoms of that element, the molar mass, and the
    /// mass percentages. `None` where a number of atoms is larger than
    /// `usize::MAX`.
    pub fn checked_from(substance: Substance) -> (compound: Option<Self>)
        ensures
            match compound {
                Some(compound) => {
                    &&& substance@.fits()
                    &&& countable(substance@.elements())
                    &&& compound@ == compound_of(substance@.elements())
                },
                None => !(substance@.fits() && countable(substance@.elements())),
            },
    {
        let elements = match substance.checked_elements() {
            Some(elements) => elements,
            None => {
                return None;
            },
        };
        let ghost listed = substance@.elements();
        let mut compound = Tally::new();
        let mut index: usize = 0;
        assert(listed.take(0) =~= Seq::empty());
        while index < elements.len()
            invariant
                index <= elements@.len(),
                listed == substance@.elements(),
                element_views(elements@) == listed,
                compound.tallies(listed.take(index as int), 0),
            decreases elements@.len() - index,
        {
            let ghost seen = listed.take(index as int);
            assert(listed.take(index + 1) =~= seen.push(elements@[index as int]@)) by {
                assert(listed[index as int] == elements@[index as int]@);
            }
            if !compound.add_element(elements[index], Ghost(seen)) {
                proof {
                    let longer = seen.push(elements@[index as int]@);
                    let element = choose|element: ChemicalElement|
                        (#[trigger] count_of(longer, element)) > usize::MAX;
                    assert(longer == listed.take(index + 1));
                    lemma_count_of_prefix(listed, index + 1, element);
                    assert(count_of(listed, element) > usize::MAX);
                }
                return None;
            }
            index = index + 1;
        }
        assert(listed.take(index as int) =~= listed);
        proof {
            assert forall|element: ChemicalElement| #[trigger]
                count_of(listed, element) <= usize::MAX by {
                lemma_distinct(listed);
                if distinct(listed).contains(element) {
                    let i = choose|i: int|
                        0 <= i < distinct(listed).len() && distinct(listed)[i] == element;
                    compound.components@[i].lemma_bounded();
                } else {
                    lemma_count_of_absent(listed, element);
                }
            }
        }
        compound.calculate_mass_percentage(Ghost(listed));
        proof {
            lemma_distinct(listed);
            let chosen = distinct(listed);
            assert forall|i: int, j: int| 0 <= i < j < chosen.len() implies (
            #[trigger] compound@.components[i]).chemical_element != (
            #[trigger] compound@.components[j]).chemical_element by {
                assert(chosen[i] != chosen[j]);
            }
        }
        Some(Self { components: compound.components, molar_mass: compound.molar_mass })
    }

    /// The compound of `substance`: one component for each of its chemical
    /// elements with all the atoms of that element, the molar mass, and the
    /// mass percentages.
    pub fn from(substance: Substance) -> (compound: Self)
        requires
            substance@.fits(),
            countable(substance@.elements()),
        ensures
            compound@ == compound_of(substance@.elements()),
    {
        Self::checked_from(substance).unwrap()
    }
}

} // verus!
