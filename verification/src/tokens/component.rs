use crate::tokens::element::{
    all_positive, lemma_scaled_positive, scaled, within, Element, ElementView,
};
use crate::tokens::group::{Group, GroupView};
use vstd::prelude::*;

verus! {

/// One unit of a formula: an element with its subscript, or a group in
/// parentheses.
#[derive(Debug, PartialEq)]
pub enum Component {
    Element(Element),
    Group(Group),
}

/// A `Component` whose numbers are natural numbers of any size.
pub enum ComponentView {
    Element(ElementView),
    Group(GroupView),
}

impl View for Component {
    type V = ComponentView;

    open spec fn view(&self) -> ComponentView {
        self.model()
    }
}

/// The views of a sequence of components, in the same order.
pub open spec fn component_views(components: Seq<Component>) -> Seq<ComponentView>
    decreases components,
{
    if components.len() == 0 {
        Seq::empty()
    } else {
        component_views(components.drop_last()).push(components.last().model())
    }
}

/// The views of a sequence of components are as many as the components, and
/// each stands at the place of its component.
pub proof fn lemma_component_views(components: Seq<Component>)
    ensures
        component_views(components).len() == components.len(),
        forall|i: int|
            0 <= i < components.len() ==> (#[trigger] component_views(components)[i])
                == components[i]@,
    decreases components.len(),
{
    if components.len() > 0 {
        lemma_component_views(components.drop_last());
    }
}

/// The views of a sequence of components with one more component at its end.
pub proof fn lemma_component_views_push(components: Seq<Component>, last: Component)
    ensures
        component_views(components.push(last)) == component_views(components).push(last@),
{
    assert(components.push(last).drop_last() =~= components);
}

/// The elements of all of `components` one after the other, in their order.
pub open spec fn flatten(components: Seq<ComponentView>) -> Seq<ElementView>
    decreases components,
{
    if components.len() == 0 {
        Seq::empty()
    } else {
        flatten(components.drop_last()) + components.last().elements()
    }
}

/// Whether the elements of `components` can be listed with `coefficient` times
/// their atoms in machine integers: every group among them fits, and no
/// multiplied subscript is larger than `usize::MAX`.
pub open spec fn scalable(components: Seq<ComponentView>, coefficient: nat) -> bool
    decreases components,
{
    forall|i: int|
        0 <= i < components.len() ==> {
            &&& (#[trigger] components[i]).fits()
            &&& within(scaled(components[i].elements(), coefficient), usize::MAX as nat)
        }
}

/// Whether every subscript in `components` is at least 1.
pub open spec fn positive_components(components: Seq<ComponentView>) -> bool
    decreases components,
{
    forall|i: int| 0 <= i < components.len() ==> (#[trigger] components[i]).positive()
}

impl ComponentView {
    /// Whether every subscript in the component is at least 1.
    pub open spec fn positive(self) -> bool
        decreases self,
    {
        match self {
            ComponentView::Element(element) => element.subscript >= 1,
            ComponentView::Group(group) => group.positive(),
        }
    }

    /// The elements of the component in the order in which they are written,
    /// each with the subscripts of the groups around it multiplied in.
    pub open spec fn elements(self) -> Seq<ElementView>
        decreases self,
    {
        match self {
            ComponentView::Element(element) => seq![element],
            ComponentView::Group(group) => group.elements(),
        }
    }

    /// Whether the elements of the component can be listed in machine
    /// integers.
    pub open spec fn fits(self) -> bool
        decreases self,
    {
        match self {
            ComponentView::Element(_) => true,
            ComponentView::Group(group) => group.fits(),
        }
    }
}

/// Multiplying by one changes nothing.
pub proof fn lemma_scaled_by_one(elements: Seq<ElementView>)
    ensures
        scaled(elements, 1) == elements,
{
    assert(scaled(elements, 1) =~= elements);
}

/// Multiplying twice is multiplying by the product.
pub proof fn lemma_scaled_twice(elements: Seq<ElementView>, inner: nat, outer: nat)
    ensures
        scaled(scaled(elements, inner), outer) == scaled(elements, inner * outer),
{
    assert forall|i: int| 0 <= i < elements.len() implies scaled(scaled(elements, inner), outer)[i]
        == scaled(elements, inner * outer)[i] by {
        assert(elements[i].subscript * inner * outer == elements[i].subscript * (inner * outer))
            by (nonlinear_arith);
    }
    assert(scaled(scaled(elements, inner), outer) =~= scaled(elements, inner * outer));
}

/// Multiplying a list that is made of two lists multiplies each of them.
pub proof fn lemma_scaled_concat(first: Seq<ElementView>, second: Seq<ElementView>, coefficient: nat)
    ensures
        scaled(first + second, coefficient) == scaled(first, coefficient) + scaled(
            second,
            coefficient,
        ),
{
    assert(scaled(first + second, coefficient) =~= scaled(first, coefficient) + scaled(
        second,
        coefficient,
    ));
}

/// The elements of a sequence of components with one more component at its
/// end.
pub proof fn lemma_flatten_push(components: Seq<ComponentView>, last: ComponentView)
    ensures
        flatten(components.push(last)) == flatten(components) + last.elements(),
{
    assert(components.push(last).drop_last() =~= components);
}

/// The elements of two sequences of components that stand one after the
/// other.
pub proof fn lemma_flatten_concat(first: Seq<ComponentView>, second: Seq<ComponentView>)
    ensures
        flatten(first + second) == flatten(first) + flatten(second),
    decreases second.len(),
{
    if second.len() == 0 {
        assert(first + second =~= first);
        assert(flatten(first) + flatten(second) =~= flatten(first));
    } else {
        lemma_flatten_concat(first, second.drop_last());
        assert((first + second).drop_last() =~= first + second.drop_last());
        assert(flatten(first + second) =~= flatten(first) + flatten(second));
    }
}

/// Where no subscript is zero, every element that is listed has atoms.
pub proof fn lemma_component_positive(component: ComponentView)
    requires
        component.positive(),
    ensures
        all_positive(component.elements()),
    decreases component,
{
    match component {
        ComponentView::Element(_) => {},
        ComponentView::Group(group) => {
            lemma_flatten_positive(group.composition);
            lemma_scaled_positive(flatten(group.composition), group.subscript);
        },
    }
}

/// Where no subscript is zero, every element that is listed has atoms.
pub proof fn lemma_flatten_positive(components: Seq<ComponentView>)
    requires
        positive_components(components),
    ensures
        all_positive(flatten(components)),
    decreases components,
{
    if components.len() > 0 {
        let front = components.drop_last();
        assert forall|i: int| 0 <= i < front.len() implies (#[trigger] front[i]).positive() by {
            assert(front[i] == components[i]);
        }
        lemma_flatten_positive(front);
        assert(components.last() == components[components.len() - 1]);
        lemma_component_positive(components.last());
        let left = flatten(front);
        let right = components.last().elements();
        assert forall|i: int| 0 <= i < (left + right).len() implies (#[trigger] (left + right)[i]).subscript
            >= 1 by {
            if i < left.len() {
                assert((left + right)[i] == left[i]);
            } else {
                assert((left + right)[i] == right[i - left.len()]);
            }
        }
    }
}

/// Where a sequence of components can be multiplied, no element of the
/// multiplied list is too large.
pub proof fn lemma_scalable_within(components: Seq<ComponentView>, coefficient: nat)
    requires
        scalable(components, coefficient),
    ensures
        within(scaled(flatten(components), coefficient), usize::MAX as nat),
    decreases components.len(),
{
    if components.len() > 0 {
        let front = components.drop_last();
        assert forall|i: int| 0 <= i < front.len() implies {
            &&& (#[trigger] front[i]).fits()
            &&& within(scaled(front[i].elements(), coefficient), usize::MAX as nat)
        } by {
            assert(front[i] == components[i]);
        }
        lemma_scalable_within(front, coefficient);
        lemma_scaled_concat(flatten(front), components.last().elements(), coefficient);
        let whole = scaled(flatten(components), coefficient);
        let left = scaled(flatten(front), coefficient);
        let right = scaled(components.last().elements(), coefficient);
        assert forall|i: int| 0 <= i < whole.len() implies (#[trigger] whole[i]).subscript
            <= usize::MAX by {
            if i < left.len() {
                assert(whole[i] == left[i]);
            } else {
                assert(whole[i] == right[i - left.len()]);
            }
        }
    }
}

impl Component {
    /// The component with its numbers as natural numbers.
    pub open spec fn model(&self) -> ComponentView
        decreases self,
    {
        match self {
            Component::Element(element) => ComponentView::Element(element@),
            Component::Group(group) => ComponentView::Group(group.model()),
        }
    }

    /// The elements of the component: the element itself, or the elements of
    /// the group with its subscript multiplied in. `None` where one of the
    /// numbers is larger than `usize::MAX`.
    pub fn checked_elements(&self) -> (elements: Option<Vec<Element>>)
        ensures
            match elements {
                Some(list) => self@.fits() && crate::tokens::element::element_views(list@)
                    == self@.elements(),
                None => !self@.fits(),
            },
        decreases self,
    {
        match self {
            Component::Element(element) => {
                let mut list: Vec<Element> = Vec::new();
                list.push(*element);
                assert(crate::tokens::element::element_views(list@) =~= seq![element@]);
                Some(list)
            },
            Component::Group(group) => group.checked_elements(),
        }
    }
}

} // verus!
