use chemp::tokens::{Component, Element, Group, Hydrate, Substance, Symbol};
use chemp::ChemicalElement;

#[test]
fn element_multiplication() {
    let element = Element::from("K", 2);

    assert_eq!(Element::multiply(&element, 2).subscript(), 4);
}

#[test]
fn symbol_multiplication() {
    let symbol = Symbol::from("K", 2);

    assert_eq!(Symbol::multiply(&symbol, 2).subscript(), 4);
}

#[test]
fn symbol_molar_mass_calculation() {
    let table = chemp::chemistry::Table::new();

    let element = table.lookup("K").unwrap();

    assert_eq!(
        Symbol::new(element, 2).molar_mass(),
        element.atomic_weight() as u128 * 2
    );
    assert_eq!(Symbol::new(element, 2).molar_mass(), 781_966);
    assert_eq!(
        Symbol::new(element, 2).molar_mass() as f32 / 10_000.,
        39.0983 * 2.
    );
}

#[test]
fn subscript_multiplication() {
    let group = Group::from(
        vec![
            Component::Element(Element::from("N", 1)),
            Component::Element(Element::from("O", 3)),
        ],
        2,
    );

    assert_eq!(
        group.elements(),
        vec![Element::from("N", 2), Element::from("O", 6)]
    );
}

#[test]
fn nested_group() {
    let group = Group::from(
        vec![
            Component::Element(Element::from("N", 1)),
            Component::Group(Group::from(
                vec![Component::Element(Element::from("H", 2))],
                2,
            )),
        ],
        2,
    );

    assert_eq!(
        group.elements(),
        vec![Element::from("N", 2), Element::from("H", 8)]
    );
}

#[test]
fn multiplication_coefficient() {
    let hydrate = Hydrate::from(7);

    assert_eq!(
        hydrate.elements(),
        vec![Element::from("H", 14), Element::from("O", 7)]
    );
}

#[test]
fn coefficient_multiplication() {
    let substance = Substance::from(
        3,
        vec![
            Component::Element(Element::from("Mg", 1)),
            Component::Element(Element::from("S", 1)),
            Component::Element(Element::from("O", 4)),
        ],
        Some(Hydrate::from(7)),
    );

    assert_eq!(
        substance.elements(),
        vec![
            Element::from("Mg", 3),
            Element::from("S", 3),
            Element::from("O", 12),
            Element::from("H", 42),
            Element::from("O", 21),
        ]
    );
}

#[test]
fn element_getters() {
    let element = Element::new(ChemicalElement::Iron, 5);
    assert_eq!(element.chemical_element(), ChemicalElement::Iron);
    assert_eq!(element.subscript(), 5);
    assert_eq!(Element::from("Fe", 5), element);

    let symbol = Symbol::new(ChemicalElement::Iron, 5);
    assert_eq!(symbol.element(), ChemicalElement::Iron);
    assert_eq!(symbol.subscript(), 5);
    assert_eq!(Symbol::from("Fe", 5), symbol);
}

#[test]
fn element_checked_multiplication() {
    let element = Element::from("K", 3);
    assert_eq!(
        Element::checked_multiply(&element, 5),
        Some(Element::from("K", 15))
    );
    assert_eq!(Element::checked_multiply(&element, usize::MAX / 2), None);
    assert_eq!(
        Element::checked_multiply(&element, usize::MAX / 3),
        Some(Element::from("K", usize::MAX / 3 * 3))
    );
    assert_eq!(
        Element::checked_multiply(&element, 0),
        Some(Element::from("K", 0))
    );
}

#[test]
fn group_of_one_is_its_body() {
    let body = vec![Element::from("N", 1), Element::from("O", 3)];
    let group = Group::from(
        vec![
            Component::Element(Element::from("N", 1)),
            Component::Element(Element::from("O", 3)),
        ],
        1,
    );
    assert_eq!(group.elements(), body);

    let wrapped = Substance::from(
        1,
        vec![Component::Group(Group::from(
            vec![
                Component::Element(Element::from("N", 1)),
                Component::Element(Element::from("O", 3)),
            ],
            1,
        ))],
        None,
    );
    let bare = Substance::from(
        1,
        vec![
            Component::Element(Element::from("N", 1)),
            Component::Element(Element::from("O", 3)),
        ],
        None,
    );
    assert_eq!(wrapped.elements(), bare.elements());
}

#[test]
fn nested_groups_multiply() {
    // (K(NO)2)3
    let group = Group::from(
        vec![
            Component::Element(Element::from("K", 1)),
            Component::Group(Group::from(
                vec![
                    Component::Element(Element::from("N", 1)),
                    Component::Element(Element::from("O", 1)),
                ],
                2,
            )),
        ],
        3,
    );
    assert_eq!(
        group.elements(),
        vec![
            Element::from("K", 3),
            Element::from("N", 6),
            Element::from("O", 6),
        ]
    );
}

#[test]
fn group_builders() {
    let mut group = Group::new();
    assert_eq!(group, Group::from(vec![], 1));
    assert_eq!(group.elements(), vec![]);
    group.add_component(Component::Element(Element::from("O", 1)));
    group.add_component(Component::Element(Element::from("H", 1)));
    group.add_subscript(2);
    assert_eq!(
        group,
        Group::from(
            vec![
                Component::Element(Element::from("O", 1)),
                Component::Element(Element::from("H", 1)),
            ],
            2
        )
    );
    assert_eq!(
        group.checked_elements(),
        Some(vec![Element::from("O", 2), Element::from("H", 2)])
    );
}

#[test]
fn group_elements_overflow() {
    let group = Group::from(
        vec![
            Component::Element(Element::from("O", 1)),
            Component::Element(Element::from("H", usize::MAX)),
        ],
        2,
    );
    assert_eq!(group.checked_elements(), None);

    let inner_too_large = Group::from(
        vec![Component::Group(Group::from(
            vec![Component::Element(Element::from("H", usize::MAX))],
            2,
        ))],
        0,
    );
    assert_eq!(inner_too_large.checked_elements(), None);

    let largest = Group::from(
        vec![Component::Element(Element::from("H", usize::MAX))],
        1,
    );
    assert_eq!(
        largest.checked_elements(),
        Some(vec![Element::from("H", usize::MAX)])
    );
}

#[test]
fn hydrate_builders() {
    let mut hydrate = Hydrate::new();
    assert_eq!(hydrate, Hydrate::from(1));
    assert_eq!(
        hydrate.elements(),
        vec![Element::from("H", 2), Element::from("O", 1)]
    );
    hydrate.add_coefficient(5);
    assert_eq!(hydrate, Hydrate::from(5));
    assert_eq!(
        hydrate.checked_elements(),
        Some(vec![Element::from("H", 10), Element::from("O", 5)])
    );
    assert_eq!(Hydrate::from(usize::MAX).checked_elements(), None);
    assert_eq!(
        Hydrate::from(usize::MAX / 2).checked_elements(),
        Some(vec![
            Element::from("H", usize::MAX - 1),
            Element::from("O", usize::MAX / 2)
        ])
    );
}

#[test]
fn substance_builders() {
    let mut substance = Substance::new();
    assert_eq!(substance, Substance::from(1, vec![], None));
    assert_eq!(substance.elements(), vec![]);
    substance.add_coefficient(2);
    substance.add_component(Component::Element(Element::from("Cu", 1)));
    substance.add_hydrate(Hydrate::from(5));
    assert_eq!(
        substance,
        Substance::from(
            2,
            vec![Component::Element(Element::from("Cu", 1))],
            Some(Hydrate::from(5))
        )
    );
    assert_eq!(
        substance.elements(),
        vec![
            Element::from("Cu", 2),
            Element::from("H", 20),
            Element::from("O", 10),
        ]
    );
}

#[test]
fn substance_elements_overflow() {
    let hydrate_too_large = Substance::from(
        3,
        vec![Component::Element(Element::from("Cu", 1))],
        Some(Hydrate::from(usize::MAX / 2)),
    );
    assert_eq!(hydrate_too_large.checked_elements(), None);

    let component_too_large = Substance::from(
        2,
        vec![Component::Element(Element::from("Cu", usize::MAX))],
        None,
    );
    assert_eq!(component_too_large.checked_elements(), None);
}

#[test]
fn component_elements() {
    let single = Component::Element(Element::from("S", 4));
    assert_eq!(single.checked_elements(), Some(vec![Element::from("S", 4)]));
    let group = Component::Group(Group::from(
        vec![Component::Element(Element::from("S", 4))],
        2,
    ));
    assert_eq!(group.checked_elements(), Some(vec![Element::from("S", 8)]));
}
