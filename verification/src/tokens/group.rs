use crate::tokens::component::{
    component_views, flatten, lemma_component_views, lemma_component_views_push,
    lemma_flatten_concat, lemma_flatten_push, lemma_scaled_by_one, lemma_scaled_concat,
    lemma_scaled_twice, positive_components, scalable, Component, ComponentView,
};
use crate::tokens::element::{
    checked_multiply_all, element_views, scaled, within, Element, ElementView,
};
use vstd::prelude::*;

verus! {

/// A part of a formula in parentheses, with the subscript that follows the
/// closing one.
#[derive(Debug, PartialEq)]
pub struct Group {
    composition: Vec<Component>,
    subscript: usize,
}

/// A `Group` whose numbers are natural numbers of any size.
pub struct GroupView {
    pub composition: Seq<ComponentView>,
    pub subscript: nat,
}

impl GroupView {
    /// The elements of the group in the order in which they are written, each
    /// with the subscript of the group, and of the groups inside it that hold
    /// it, multiplied in.
    pub open spec fn elements(self) -> Seq<ElementView>
        decreases self,
    {
        scaled(flatten(self.composition), self.subscript)
    }

    /// Whether the subscript of the group and every subscript inside it is at
    /// least 1.
    pub open spec fn positive(self) -> bool
        decreases self,
    {
        self.subscript >= 1 && positive_components(self.composition)
    }

    /// Whether the elements of the group can be listed in machine integers:
    /// the groups inside it fit, and no multiplied subscript is larger than
    /// `usize::MAX`.
    pub open spec fn fits(self) -> bool
        decreases self,
    {
        scalable(self.composition, self.subscript)
    }
}

/// A group with the subscript 1 has the elements of what it holds.
pub proof fn lemma_group_of_one(composition: Seq<ComponentView>)
    ensures
        (GroupView { composition, subscript: 1 }).elements() == flatten(composition),
{
    lemma_scaled_by_one(flatten(composition));
}

/// Groups within groups multiply: where a group with the subscript `inner`
/// stands in a group with the subscript `outer`, between the components
/// `front` and `back`, what the inner group holds is multiplied by the product
/// of the two subscripts, and what stands beside it by `outer` alone.
pub proof fn lemma_nested_group(
    front: Seq<ComponentView>,
    body: Seq<ComponentView>,
    inner: nat,
    back: Seq<ComponentView>,
    outer: nat,
)
    ensures
        (GroupView {
            composition: front.push(
                ComponentView::Group(GroupView { composition: body, subscript: inner }),
            ) + back,
            subscript: outer,
        }).elements() == scaled(flatten(front), outer) + scaled(flatten(body), inner * outer)
            + scaled(flatten(back), outer),
{
    let nested = ComponentView::Group(GroupView { composition: body, subscript: inner });
    lemma_flatten_concat(front.push(nested), back);
    lemma_flatten_push(front, nested);
    lemma_scaled_concat(flatten(front) + nested.elements(), flatten(back), outer);
    lemma_scaled_concat(flatten(front), nested.elements(), outer);
    lemma_scaled_twice(flatten(body), inner, outer);
}

impl View for Group {
    type V = GroupView;

    open spec fn view(&self) -> GroupView {
        self.model()
    }
}

/// Lists the elements of `composition` with `coefficient` times their atoms,
/// in the order in which they are written. `None` where one of the numbers
/// is larger than `usize::MAX`.
pub fn checked_flatten(composition: &Vec<Component>, coefficient: usize) -> (elements: Option<
    Vec<Element>,
>)
    ensures
        match elements {
            Some(list) => {
                &&& scalable(component_views(composition@), coefficient as nat)
                &&& element_views(list@) == scaled(
                    flatten(component_views(composition@)),
                    coefficient as nat,
                )
            },
            None => !scalable(component_views(composition@), coefficient as nat),
        },
    decreases composition,
{
    let ghost parts = component_views(composition@);
    proof {
        lemma_component_views(composition@);
    }
    let mut elements: Vec<Element> = Vec::new();
    let mut index: usize = 0;
    while index < composition.len()
        invariant
            index <= composition@.len(),
            parts == component_views(composition@),
            parts.len() == composition@.len(),
            forall|i: int| 0 <= i < parts.len() ==> (#[trigger] parts[i]) == composition@[i]@,
            forall|i: int|
                0 <= i < index ==> {
                    &&& (#[trigger] parts[i]).fits()
                    &&& within(scaled(parts[i].elements(), coefficient as nat), usize::MAX as nat)
                },
            element_views(elements@) == scaled(
                flatten(parts.take(index as int)),
                coefficient as nat,
            ),
        decreases composition@.len() - index,
    {
        let ghost before = element_views(elements@);
        let inner = match composition[index].checked_elements() {
            Some(inner) => inner,
            None => {
                assert(!parts[index as int].fits());
                return None;
            },
        };
        let ghost listed = parts[index as int].elements();
        let mut products = match checked_multiply_all(&inner, coefficient) {
            Some(products) => products,
            None => {
                return None;
            },
        };
        let ghost added = products@;
        elements.append(&mut products);
        proof {
            assert(element_views(elements@) =~= before + element_views(added));
            assert(parts.take(index + 1) =~= parts.take(index as int).push(parts[index as int]));
            lemma_flatten_push(parts.take(index as int), parts[index as int]);
            lemma_scaled_concat(flatten(parts.take(index as int)), listed, coefficient as nat);
        }
        index = index + 1;
    }
    assert(parts.take(index as int) =~= parts);
    Some(elements)
}

impl Group {
    /// The group with its numbers as natural numbers.
    pub closed spec fn model(&self) -> GroupView
        decreases self,
    {
        GroupView {
            composition: component_views(self.composition@),
            subscript: self.subscript as nat,
        }
    }

    /// A group with nothing in it and the subscript 1.
    pub fn new() -> (group: Self)
        ensures
            group@ == (GroupView { composition: Seq::empty(), subscript: 1 }),
    {
        Self { composition: Vec::new(), subscript: 1 }
    }

    /// The group of `composition` with the given subscript.
    pub fn from(composition: Vec<Component>, subscript: usize) -> (group: Self)
        ensures
            group@ == (GroupView {
                composition: component_views(composition@),
                subscript: subscript as nat,
            }),
    {
        Self { composition, subscript }
    }

    /// Puts `component` at the end of the group.
    pub fn add_component(&mut self, component: Component)
        ensures
            final(self)@ == (GroupView {
                composition: old(self)@.composition.push(component@),
                subscript: old(self)@.subscript,
            }),
    {
        self.composition.push(component);
        proof {
            lemma_component_views_push(old(self).composition@, component);
        }
    }

    /// Sets the subscript of the group.
    pub fn add_subscript(&mut self, subscript: usize)
        ensures
            final(self)@ == (GroupView {
                composition: old(self)@.composition,
                subscript: subscript as nat,
            }),
    {
        self.subscript = subscript;
    }

    /// The elements of the group in the order in which they are written, each
    /// with the subscript of the group multiplied in. `None` where one of the
    /// numbers is larger than `usize::MAX`.
    pub fn checked_elements(&self) -> (elements: Option<Vec<Element>>)
        ensures
            match elements {
                Some(list) => self@.fits() && element_views(list@) == self@.elements(),
                None => !self@.fits(),
            },
        decreases self,
    {
        checked_flatten(&self.composition, self.subscript)
    }

    /// The elements of the group in the order in which they are written, each
    /// with the subscript of the group multiplied in.
    pub fn elements(&self) -> (elements: Vec<Element>)
        requires
            self@.fits(),
        ensures
            element_views(elements@) == self@.elements(),
    {
        self.checked_elements().unwrap()
    }
}

} // verus!
