use chemp::chemistry::element::{MAX_ATOMIC_WEIGHT, WEIGHT_SCALE};
use chemp::chemistry::{Element, Table};
use chemp::ChemicalElement;

#[test]
fn table_lookup() {
    let table = Table::new();
    assert_eq!(table.lookup("H"), Some(Element::Hydrogen));
    assert_eq!(table.lookup("He"), Some(Element::Helium));
    assert_eq!(table.lookup("Mg"), Some(Element::Magnesium));
    assert_eq!(table.lookup("Og"), Some(Element::Oganesson));
    assert_eq!(table.lookup("Zn"), Some(Element::Zinc));
    assert_eq!(table.lookup("Xx"), None);
    assert_eq!(table.lookup("h"), None);
    assert_eq!(table.lookup("HE"), None);
    assert_eq!(table.lookup("Hee"), None);
    assert_eq!(table.lookup(""), None);
}

#[test]
fn table_finds_every_element_by_its_symbol() {
    let table = Table::new();
    let copy = table.clone();
    let mut seen = Vec::new();
    for first in 'A'..='Z' {
        let single = first.to_string();
        if let Some(element) = table.lookup(&single) {
            assert_eq!(element.symbol(), single);
            assert_eq!(copy.lookup(&single), Some(element));
            seen.push(element);
        }
        for second in 'a'..='z' {
            let double = format!("{}{}", first, second);
            if let Some(element) = table.lookup(&double) {
                assert_eq!(element.symbol(), double);
                seen.push(element);
            }
        }
    }
    assert_eq!(seen.len(), 118);
}

#[test]
fn element_symbol_and_weight() {
    assert_eq!(ChemicalElement::Hydrogen.symbol(), "H");
    assert_eq!(ChemicalElement::Hydrogen.atomic_weight(), 10_080);
    assert_eq!(ChemicalElement::Neon.symbol(), "Ne");
    assert_eq!(ChemicalElement::Neon.atomic_weight(), 201_797);
    assert_eq!(ChemicalElement::Oganesson.symbol(), "Og");
    assert_eq!(ChemicalElement::Oganesson.atomic_weight(), MAX_ATOMIC_WEIGHT);
    assert_eq!(
        ChemicalElement::Potassium.atomic_weight() as f32 / WEIGHT_SCALE as f32,
        39.0983
    );
    assert_eq!(
        ChemicalElement::Sulfur.atomic_weight() as f32 / WEIGHT_SCALE as f32,
        32.06
    );
}
