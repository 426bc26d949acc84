use chemp::chemistry::Table;
use chemp::parser::Parser;
use chemp::tokens::{Component, Element, Group, Hydrate, Substance};
use chemp::Error;

#[test]
fn parser_single_element() {
    let table = Table::new();

    assert_eq!(
        Parser::new(&table, "N").parse().unwrap(),
        Substance::from(1, vec![Component::Element(Element::from("N", 1))], None)
    );

    assert_eq!(
        Parser::new(&table, "Mg").parse().unwrap(),
        Substance::from(1, vec![Component::Element(Element::from("Mg", 1))], None)
    );

    assert_eq!(
        Parser::new(&table, "Mg3").parse().unwrap(),
        Substance::from(1, vec![Component::Element(Element::from("Mg", 3))], None)
    );
}

#[test]
fn parser_multiple_elements() {
    let table = Table::new();

    assert_eq!(
        Parser::new(&table, "KNO3").parse().unwrap(),
        Substance::from(
            1,
            vec![
                Component::Element(Element::from("K", 1)),
                Component::Element(Element::from("N", 1)),
                Component::Element(Element::from("O", 3)),
            ],
            None,
        )
    );
}

#[test]
fn parser_group() {
    let table = Table::new();

    assert_eq!(
        Parser::new(&table, "Ca(NO3)2").parse().unwrap(),
        Substance::from(
            1,
            vec![
                Component::Element(Element::from("Ca", 1)),
                Component::Group(Group::from(
                    vec![
                        Component::Element(Element::from("N", 1)),
                        Component::Element(Element::from("O", 3)),
                    ],
                    2,
                )),
            ],
            None,
        )
    );

    assert_eq!(
        Parser::new(&table, "C14H18N3O10Fe(NH4)2").parse().unwrap(),
        Substance::from(
            1,
            vec![
                Component::Element(Element::from("C", 14)),
                Component::Element(Element::from("H", 18)),
                Component::Element(Element::from("N", 3)),
                Component::Element(Element::from("O", 10)),
                Component::Element(Element::from("Fe", 1)),
                Component::Group(Group::from(
                    vec![
                        Component::Element(Element::from("N", 1)),
                        Component::Element(Element::from("H", 4)),
                    ],
                    2,
                )),
            ],
            None,
        )
    );
}

#[test]
fn parser_coefficient() {
    let table = Table::new();

    assert_eq!(
        Parser::new(&table, "2C14H18N3O10Fe(NH4)2").parse().unwrap(),
        Substance::from(
            2,
            vec![
                Component::Element(Element::from("C", 14)),
                Component::Element(Element::from("H", 18)),
                Component::Element(Element::from("N", 3)),
                Component::Element(Element::from("O", 10)),
                Component::Element(Element::from("Fe", 1)),
                Component::Group(Group::from(
                    vec![
                        Component::Element(Element::from("N", 1)),
                        Component::Element(Element::from("H", 4)),
                    ],
                    2,
                )),
            ],
            None,
        )
    );
}

#[test]
fn parser_hydrate() {
    let table = Table::new();

    assert_eq!(
        Parser::new(&table, "MgSO4*7H2O").parse().unwrap(),
        Substance::from(
            1,
            vec![
                Component::Element(Element::from("Mg", 1)),
                Component::Element(Element::from("S", 1)),
                Component::Element(Element::from("O", 4)),
            ],
            Some(Hydrate::from(7)),
        )
    );
}

fn read(formula: &str) -> Result<Substance, Error> {
    let table = Table::new();
    let result = Parser::new(&table, formula).parse();
    result
}

#[test]
fn parser_hydrate_without_coefficient() {
    assert_eq!(
        read("CuSO4*H2O").unwrap(),
        Substance::from(
            1,
            vec![
                Component::Element(Element::from("Cu", 1)),
                Component::Element(Element::from("S", 1)),
                Component::Element(Element::from("O", 4)),
            ],
            Some(Hydrate::from(1)),
        )
    );
}

#[test]
fn parser_nested_groups() {
    assert_eq!(
        read("(K(NO)2)3").unwrap(),
        Substance::from(
            1,
            vec![Component::Group(Group::from(
                vec![
                    Component::Element(Element::from("K", 1)),
                    Component::Group(Group::from(
                        vec![
                            Component::Element(Element::from("N", 1)),
                            Component::Element(Element::from("O", 1)),
                        ],
                        2,
                    )),
                ],
                3,
            ))],
            None,
        )
    );
}

#[test]
fn parser_needs_a_component() {
    assert_eq!(read(""), Err(Error::UnexpectedEnd("component".to_string())));
    assert_eq!(read("3"), Err(Error::UnexpectedEnd("component".to_string())));
    assert_eq!(
        read("*2H2O"),
        Err(Error::UnexpectedToken("*".to_string(), 0))
    );
    assert_eq!(
        read("2*H2O"),
        Err(Error::UnexpectedToken("*".to_string(), 1))
    );
    assert_eq!(read(")"), Err(Error::UnexpectedToken(")".to_string(), 0)));
    assert_eq!(
        read("2)"),
        Err(Error::UnexpectedToken(")".to_string(), 1))
    );
}

#[test]
fn parser_empty_group() {
    assert_eq!(
        read("()").unwrap(),
        Substance::from(1, vec![Component::Group(Group::from(vec![], 1))], None)
    );
    assert_eq!(
        read("H()3").unwrap(),
        Substance::from(
            1,
            vec![
                Component::Element(Element::from("H", 1)),
                Component::Group(Group::from(vec![], 3)),
            ],
            None
        )
    );
}

#[test]
fn parser_zero_is_no_multiplier() {
    assert_eq!(
        read("H0"),
        Err(Error::UnexpectedToken("0".to_string(), 1))
    );
    assert_eq!(
        read("H00"),
        Err(Error::UnexpectedToken("00".to_string(), 1))
    );
    assert_eq!(
        read("0H"),
        Err(Error::UnexpectedToken("0".to_string(), 0))
    );
    assert_eq!(
        read("(H)0"),
        Err(Error::UnexpectedToken("0".to_string(), 3))
    );
    assert_eq!(
        read("H2O*0H2O"),
        Err(Error::UnexpectedToken("0".to_string(), 4))
    );
    // A character that begins no token is found first.
    assert_eq!(
        read("H0$"),
        Err(Error::UnexpectedToken("$".to_string(), 2))
    );
}

#[test]
fn parser_zeros_before_a_number() {
    assert_eq!(
        read("H02").unwrap(),
        Substance::from(1, vec![Component::Element(Element::from("H", 2))], None)
    );
    assert_eq!(
        read("05H").unwrap(),
        Substance::from(5, vec![Component::Element(Element::from("H", 1))], None)
    );
    assert_eq!(
        read("(H)010").unwrap(),
        Substance::from(
            1,
            vec![Component::Group(Group::from(
                vec![Component::Element(Element::from("H", 1))],
                10
            ))],
            None
        )
    );
    assert_eq!(
        read("H*007H2O").unwrap(),
        Substance::from(
            1,
            vec![Component::Element(Element::from("H", 1))],
            Some(Hydrate::from(7))
        )
    );
    let padded = format!("H0000{}", usize::MAX);
    assert_eq!(
        read(&padded).unwrap(),
        Substance::from(
            1,
            vec![Component::Element(Element::from("H", usize::MAX))],
            None
        )
    );
}

#[test]
fn parser_greedy_symbol() {
    assert_eq!(
        read("Co").unwrap(),
        Substance::from(1, vec![Component::Element(Element::from("Co", 1))], None)
    );
    assert_eq!(
        read("CO").unwrap(),
        Substance::from(
            1,
            vec![
                Component::Element(Element::from("C", 1)),
                Component::Element(Element::from("O", 1)),
            ],
            None
        )
    );
}

#[test]
fn parser_unknown_element() {
    assert_eq!(read("Xx2"), Err(Error::UnknownElement("Xx".to_string(), 0)));
    assert_eq!(
        read("H2Oo"),
        Err(Error::UnknownElement("Oo".to_string(), 2))
    );
    assert_eq!(
        read("Ca(Zz)2"),
        Err(Error::UnknownElement("Zz".to_string(), 3))
    );
}

#[test]
fn parser_unterminated_group() {
    assert_eq!(read("Ca(NO3"), Err(Error::UnexpectedEnd(")".to_string())));
    assert_eq!(read("("), Err(Error::UnexpectedEnd(")".to_string())));
    assert_eq!(
        read("Ca(NO3*H2O"),
        Err(Error::UnexpectedToken("*".to_string(), 6))
    );
    assert_eq!(
        read("(2H)"),
        Err(Error::UnexpectedToken("2".to_string(), 1))
    );
}

#[test]
fn parser_unexpected_token() {
    assert_eq!(
        read("H2O)"),
        Err(Error::UnexpectedToken(")".to_string(), 3))
    );
    assert_eq!(
        read("H2O*H2O*H2O"),
        Err(Error::UnexpectedToken("*".to_string(), 7))
    );
    assert_eq!(
        read("H2O*H2O2"),
        Err(Error::UnexpectedToken("2".to_string(), 7))
    );
    assert_eq!(
        read("2 H"),
        Err(Error::UnexpectedToken(" ".to_string(), 1))
    );
    assert_eq!(
        read("#"),
        Err(Error::UnexpectedToken("#".to_string(), 0))
    );
}

#[test]
fn parser_scanning_error_goes_first() {
    // The character after the symbol begins no token, which is found before
    // the symbol is looked up.
    assert_eq!(
        read("Xx$"),
        Err(Error::UnexpectedToken("$".to_string(), 2))
    );
    assert_eq!(
        read("MgSO4*7H2o"),
        Err(Error::UnexpectedToken("o".to_string(), 9))
    );
}

#[test]
fn parser_incorrect_hydrate() {
    assert_eq!(read("MgSO4*7H3O"), Err(Error::IncorrectHydrate));
    assert_eq!(read("MgSO4*7H2S"), Err(Error::IncorrectHydrate));
    assert_eq!(read("MgSO4*7O"), Err(Error::IncorrectHydrate));
    assert_eq!(read("MgSO4*7He2O"), Err(Error::IncorrectHydrate));
    assert_eq!(read("MgSO4*7HO"), Err(Error::IncorrectHydrate));
    assert_eq!(read("MgSO4*7H20"), Err(Error::IncorrectHydrate));
    assert_eq!(read("MgSO4*7H02O"), Err(Error::IncorrectHydrate));
    assert_eq!(read("MgSO4*(H2O)"), Err(Error::IncorrectHydrate));
    assert_eq!(read("MgSO4**H2O"), Err(Error::IncorrectHydrate));
}

#[test]
fn parser_hydrate_cut_short() {
    assert_eq!(read("MgSO4*"), Err(Error::UnexpectedEnd("H".to_string())));
    assert_eq!(read("MgSO4*7"), Err(Error::UnexpectedEnd("H".to_string())));
    assert_eq!(read("MgSO4*7H"), Err(Error::UnexpectedEnd("2".to_string())));
    assert_eq!(read("MgSO4*7H2"), Err(Error::UnexpectedEnd("O".to_string())));
}

#[test]
fn parser_number_too_large() {
    assert_eq!(read("H99999999999999999999999999"), Err(Error::Overflow));
    assert_eq!(read("99999999999999999999999999H"), Err(Error::Overflow));
    assert_eq!(
        read("H2O*99999999999999999999999999H2O"),
        Err(Error::Overflow)
    );
    let largest = format!("H{}", usize::MAX);
    assert_eq!(
        read(&largest).unwrap(),
        Substance::from(
            1,
            vec![Component::Element(Element::from("H", usize::MAX))],
            None
        )
    );
}

#[test]
fn parser_reads_on_from_where_it_stands() {
    let table = Table::new();
    let mut parser = Parser::new(&table, "H2O");
    assert_eq!(
        parser.parse().unwrap(),
        Substance::from(
            1,
            vec![
                Component::Element(Element::from("H", 2)),
                Component::Element(Element::from("O", 1)),
            ],
            None
        )
    );
    // The parser now stands at the end, where no component is left to read.
    assert_eq!(
        parser.parse(),
        Err(Error::UnexpectedEnd("component".to_string()))
    );
}
