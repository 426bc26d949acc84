use chemp::tokens::{Component, Element, Hydrate, Substance};
use chemp::{parse, ChemicalElement, Compound, Error};

#[test]
fn simple() {
    let compound = parse("MgSO4*7H2O").unwrap();

    assert_eq!(
        compound,
        Compound::from(Substance::from(
            1,
            vec![
                Component::Element(Element::from("Mg", 1)),
                Component::Element(Element::from("S", 1)),
                Component::Element(Element::from("O", 4)),
            ],
            Some(Hydrate::from(7,)),
        ))
    );
}

fn atoms(compound: &Compound) -> Vec<(ChemicalElement, usize)> {
    compound
        .components()
        .iter()
        .map(|component| (component.chemical_element(), component.atoms_count()))
        .collect()
}

#[test]
fn parse_nitrogen() {
    let compound = parse("N").unwrap();
    assert_eq!(atoms(&compound), vec![(ChemicalElement::Nitrogen, 1)]);
    assert_eq!(compound.components()[0].chemical_element().symbol(), "N");
    assert_eq!(compound.components()[0].mass_percent(), 100_000_000);
    assert_eq!(compound.molar_mass(), 140_070);
}

#[test]
fn parse_magnesium() {
    let compound = parse("Mg3").unwrap();
    assert_eq!(atoms(&compound), vec![(ChemicalElement::Magnesium, 3)]);
    assert_eq!(compound.components()[0].chemical_element().symbol(), "Mg");
    assert_eq!(compound.molar_mass(), 729_150);
}

#[test]
fn parse_potassium_nitrate() {
    let compound = parse("KNO3").unwrap();
    assert_eq!(
        atoms(&compound),
        vec![
            (ChemicalElement::Potassium, 1),
            (ChemicalElement::Nitrogen, 1),
            (ChemicalElement::Oxygen, 3),
        ]
    );
    // 39.0983 + 14.007 + 3 * 15.999
    assert_eq!(compound.molar_mass(), 1_011_023);
    for component in compound.components() {
        assert_eq!(
            component.mass_percent(),
            component.mass() * 100_000_000 / compound.molar_mass()
        );
    }
    assert_eq!(compound.components()[0].mass_percent(), 38_672_018);
    assert_eq!(compound.components()[1].mass_percent(), 13_854_284);
    assert_eq!(compound.components()[2].mass_percent(), 47_473_697);
}

#[test]
fn parse_calcium_nitrate() {
    let compound = parse("Ca(NO3)2").unwrap();
    assert_eq!(
        atoms(&compound),
        vec![
            (ChemicalElement::Calcium, 1),
            (ChemicalElement::Nitrogen, 2),
            (ChemicalElement::Oxygen, 6),
        ]
    );
}

#[test]
fn parse_magnesium_sulfate() {
    let compound = parse("MgSO4*7H2O").unwrap();
    assert_eq!(
        atoms(&compound),
        vec![
            (ChemicalElement::Magnesium, 1),
            (ChemicalElement::Sulfur, 1),
            (ChemicalElement::Oxygen, 11),
            (ChemicalElement::Hydrogen, 14),
        ]
    );
    assert_eq!(compound.molar_mass(), 2_464_660);
    assert!((compound.molar_mass() as f64 / 10_000. - 246.466).abs() < 1e-9);
    assert_eq!(compound.components()[1].mass_percent(), 13_007_879);
    assert!((compound.components()[1].mass_percent() as f64 / 1e6 - 13.0079).abs() < 1e-4);
    assert_eq!(compound.components()[0].mass_percent(), 9_861_400);
    assert_eq!(compound.components()[2].mass_percent(), 71_404_980);
    assert_eq!(compound.components()[3].mass_percent(), 5_725_739);
}

#[test]
fn parse_nested_groups() {
    let compound = parse("(K(NO)2)3").unwrap();
    assert_eq!(
        atoms(&compound),
        vec![
            (ChemicalElement::Potassium, 3),
            (ChemicalElement::Nitrogen, 6),
            (ChemicalElement::Oxygen, 6),
        ]
    );
    assert_eq!(atoms(&parse("((H)2)3").unwrap()), vec![(ChemicalElement::Hydrogen, 6)]);
}

#[test]
fn parse_group_of_one() {
    assert_eq!(parse("(NO3)").unwrap(), parse("NO3").unwrap());
    assert_eq!(parse("Ca(NO3)1").unwrap(), parse("CaNO3").unwrap());
}

#[test]
fn parse_coefficient_scales_the_hydrate() {
    let compound = parse("2CuSO4*5H2O").unwrap();
    assert_eq!(
        atoms(&compound),
        vec![
            (ChemicalElement::Copper, 2),
            (ChemicalElement::Sulfur, 2),
            (ChemicalElement::Oxygen, 18),
            (ChemicalElement::Hydrogen, 20),
        ]
    );
}

#[test]
fn parse_without_components() {
    assert_eq!(parse(""), Err(Error::UnexpectedEnd("component".to_string())));
    assert_eq!(parse("7"), Err(Error::UnexpectedEnd("component".to_string())));
    assert_eq!(
        parse("*H2O"),
        Err(Error::UnexpectedToken("*".to_string(), 0))
    );
}

#[test]
fn parse_without_atoms() {
    assert_eq!(parse("()").unwrap(), Compound::new());
    assert_eq!(parse("3(())2").unwrap(), Compound::new());
}

#[test]
fn parse_zero_and_zeros() {
    assert_eq!(
        parse("H0"),
        Err(Error::UnexpectedToken("0".to_string(), 1))
    );
    assert_eq!(parse("H02O").unwrap(), parse("H2O").unwrap());
    assert_eq!(parse("02H2O").unwrap(), parse("2H2O").unwrap());
}

#[test]
fn parse_incorrect_hydrate() {
    assert_eq!(parse("MgSO4*7H3O"), Err(Error::IncorrectHydrate));
    assert_eq!(parse("MgSO4*7Na2O"), Err(Error::IncorrectHydrate));
}

#[test]
fn parse_unknown_element() {
    assert_eq!(parse("Xx2"), Err(Error::UnknownElement("Xx".to_string(), 0)));
}

#[test]
fn parse_unterminated_group() {
    assert_eq!(parse("Ca(NO3"), Err(Error::UnexpectedEnd(")".to_string())));
}

#[test]
fn parse_unexpected_token() {
    assert_eq!(
        parse("Ca)NO3"),
        Err(Error::UnexpectedToken(")".to_string(), 2))
    );
    assert_eq!(
        parse("ca"),
        Err(Error::UnexpectedToken("c".to_string(), 0))
    );
}

#[test]
fn parse_overflow() {
    assert_eq!(parse("H123456789012345678901234567890"), Err(Error::Overflow));
    let largest = usize::MAX;
    assert_eq!(parse(&format!("H{}", largest)).unwrap().components()[0].atoms_count(), largest);
    assert_eq!(parse(&format!("(H{})2", largest)), Err(Error::Overflow));
    assert_eq!(parse(&format!("H{}H", largest)), Err(Error::Overflow));
    assert_eq!(parse(&format!("O*{}H2O", largest)), Err(Error::Overflow));
    assert_eq!(parse(&format!("2O*{}H2O", largest / 2)), Err(Error::Overflow));
    assert!(parse(&format!("H*{}H2O", largest / 2 - 1)).is_ok());
    assert_eq!(parse(&format!("H2*{}H2O", largest / 2)), Err(Error::Overflow));
}
