use chemp::chemistry::Table;
use chemp::compounds::component::PERCENT_SCALE;
use chemp::tokens::{Component, Element, Group, Hydrate, Substance};
use chemp::{ChemicalElement, Compound};

#[test]
fn mass_calculation() {
    let mut component = chemp::Component::from(Element::from("S", 2));

    assert_eq!(
        component.mass(),
        ChemicalElement::Sulfur.atomic_weight() as u128 * 2
    );

    component.add_atoms(3);

    assert_eq!(
        component.mass(),
        ChemicalElement::Sulfur.atomic_weight() as u128 * 5
    );

    component.add_atoms(4);

    assert_eq!(
        component.mass(),
        ChemicalElement::Sulfur.atomic_weight() as u128 * 9
    );
    assert_eq!(component.mass(), 2_885_400);
    assert_eq!(component.atoms_count(), 9);
}

#[test]
fn mass_percent_calculation() {
    const MAGNESIUM_SULFATE_MOLAR_MASS: f32 = 246.466;

    const SULFUR_PERCENTAGE_IN_MAGNESIUM_SULFATE: f32 = 13.007879;

    let mut component = chemp::Component::from(Element::from("S", 1));

    component.calculate_mass_percent((MAGNESIUM_SULFATE_MOLAR_MASS * 10_000.).round() as u128);

    assert_eq!(
        component.mass_percent() as f32 / PERCENT_SCALE as f32,
        SULFUR_PERCENTAGE_IN_MAGNESIUM_SULFATE
    );
    assert_eq!(component.mass_percent(), 13_007_879);
}

#[test]
fn compound_molar_mass_calculation() {
    const MAGNESIUM_SULFATE_MOLAR_MASS: f32 = 246.466;

    let compound = Compound::from(Substance::from(
        1,
        vec![
            Component::Element(Element::from("Mg", 1)),
            Component::Element(Element::from("S", 1)),
            Component::Element(Element::from("O", 4)),
        ],
        Some(Hydrate::from(7)),
    ));

    assert_eq!(
        compound.molar_mass() as f32 / 10_000.,
        MAGNESIUM_SULFATE_MOLAR_MASS
    );
    assert_eq!(compound.molar_mass(), 2_464_660);
}

#[test]
fn component_without_mass_has_no_percentage() {
    let mut component = chemp::Component::from(Element::from("S", 1));
    assert_eq!(component.mass_percent(), 0);
    component.calculate_mass_percent(0);
    assert_eq!(component.mass_percent(), 0);
    component.calculate_mass_percent(320_600);
    assert_eq!(component.mass_percent(), 100_000_000);
    assert_eq!(component.chemical_element(), ChemicalElement::Sulfur);
}

#[test]
fn compound_of_nothing() {
    let compound = Compound::new();
    assert_eq!(compound.components().len(), 0);
    assert_eq!(compound.molar_mass(), 0);
    assert_eq!(Compound::from(Substance::new()), compound);
    assert_eq!(
        Compound::from(Substance::from(
            4,
            vec![Component::Group(Group::from(vec![], 2))],
            None
        )),
        compound
    );
}

#[test]
fn compound_sums_the_places_of_an_element() {
    // CH3COOH
    let compound = Compound::from(Substance::from(
        1,
        vec![
            Component::Element(Element::from("C", 1)),
            Component::Element(Element::from("H", 3)),
            Component::Element(Element::from("C", 1)),
            Component::Element(Element::from("O", 1)),
            Component::Element(Element::from("O", 1)),
            Component::Element(Element::from("H", 1)),
        ],
        None,
    ));
    let components = compound.components();
    assert_eq!(components.len(), 3);
    assert_eq!(components[0].chemical_element(), ChemicalElement::Carbon);
    assert_eq!(components[0].atoms_count(), 2);
    assert_eq!(components[1].chemical_element(), ChemicalElement::Hydrogen);
    assert_eq!(components[1].atoms_count(), 4);
    assert_eq!(components[2].chemical_element(), ChemicalElement::Oxygen);
    assert_eq!(components[2].atoms_count(), 2);
    // 2 * 12.011 + 4 * 1.008 + 2 * 15.999
    assert_eq!(compound.molar_mass(), 600_520);
    assert_eq!(components[0].mass(), 240_220);
    assert_eq!(components[0].mass_percent(), 40_001_998);
    assert_eq!(components[1].mass_percent(), 6_714_181);
    assert_eq!(components[2].mass_percent(), 53_283_820);
}

#[test]
fn compound_masses_add_up() {
    let table = Table::new();
    for formula in ["KNO3", "Ca(NO3)2", "MgSO4*7H2O", "2C14H18N3O10Fe(NH4)2", "(K(NO)2)3"] {
        let substance = chemp::parser::Parser::new(&table, formula).parse().unwrap();
        let elements = substance.elements();
        let compound = Compound::from(substance);
        let listed: u128 = elements
            .iter()
            .map(|element| element.chemical_element().atomic_weight() as u128 * element.subscript() as u128)
            .sum();
        assert_eq!(compound.molar_mass(), listed);
        let masses: u128 = compound.components().iter().map(|component| component.mass()).sum();
        assert_eq!(masses, compound.molar_mass());
        let percent: u128 = compound
            .components()
            .iter()
            .map(|component| component.mass_percent())
            .sum();
        assert!(percent <= 100 * PERCENT_SCALE);
        assert!(percent + compound.components().len() as u128 > 100 * PERCENT_SCALE);
    }
}

#[test]
fn compound_too_many_atoms() {
    let twice = Substance::from(
        1,
        vec![
            Component::Element(Element::from("H", usize::MAX)),
            Component::Element(Element::from("H", 1)),
        ],
        None,
    );
    assert_eq!(Compound::checked_from(twice), None);

    let apart = Substance::from(
        1,
        vec![
            Component::Element(Element::from("H", usize::MAX)),
            Component::Element(Element::from("Og", usize::MAX)),
        ],
        None,
    );
    let compound = Compound::checked_from(apart).unwrap();
    assert_eq!(
        compound.molar_mass(),
        (10_080 + 2_940_000) * usize::MAX as u128
    );

    let multiplied = Substance::from(
        2,
        vec![Component::Element(Element::from("H", usize::MAX))],
        None,
    );
    assert_eq!(Compound::checked_from(multiplied), None);
}

#[test]
fn compound_has_one_component_for_each_element() {
    let compound = chemp::parse("CH3CH2OH*2H2O").unwrap();
    let components = compound.components();
    for (i, first) in components.iter().enumerate() {
        for second in components.iter().skip(i + 1) {
            assert_ne!(first.chemical_element(), second.chemical_element());
        }
    }
    assert_eq!(components.len(), 3);
    assert_eq!(compound.clone(), compound);
    assert_eq!(compound.clone().molar_mass(), compound.molar_mass());
}
