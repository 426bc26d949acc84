use crate::chemistry::element::{lemma_symbol_injective, Element};
use crate::text::text_eq;
use vstd::prelude::*;

verus! {

/// The periodic table: every chemical element, to be found by its symbol.
#[derive(Debug)]
pub struct Table {
    elements: Vec<Element>,
}

/// The element whose symbol is `text`, if there is one.
pub open spec fn element_named(text: Seq<char>) -> Option<Element> {
    if exists|element: Element| element.spec_symbol() == text {
        Some(choose|element: Element| element.spec_symbol() == text)
    } else {
        None
    }
}

/// Looking an element's own symbol up gives that element back.
pub proof fn lemma_element_named(element: Element)
    ensures
        element_named(element.spec_symbol()) == Some(element),
{
    let found = choose|other: Element| other.spec_symbol() == element.spec_symbol();
    lemma_symbol_injective(found, element);
}

/// Whether `rows` holds every element once, at the place that its atomic
/// number gives.
pub open spec fn periodic(rows: Seq<Element>) -> bool {
    &&& rows.len() == 118
    &&& forall|element: Element| #[trigger] rows[element.atomic_number() - 1] == element
}

impl View for Table {
    type V = Seq<Element>;

    closed spec fn view(&self) -> Seq<Element> {
        self.elements@
    }
}

impl Clone for Table {
    /// Another table with the same rows.
    fn clone(&self) -> (copy: Self)
        ensures
            periodic(copy@),
    {
        Table::new()
    }
}

impl Table {
    /// Every element has a row, at the place its atomic number gives.
    #[verifier::type_invariant]
    spec fn complete(&self) -> bool {
        periodic(self.elements@)
    }

    /// The table of all elements, in the order of their atomic numbers.
    pub fn new() -> (table: Table)
        ensures
            periodic(table@),
    {
        let table = Table {
            elements: vec![
            Element::Hydrogen,
            Element::Helium,
            Element::Lithium,
            Element::Beryllium,
            Element::Boron,
            Element::Carbon,
            Element::Nitrogen,
            Element::Oxygen,
            Element::Fluorine,
            Element::Neon,
            Element::Sodium,
            Element::Magnesium,
            Element::Aluminium,
            Element::Silicon,
            Element::Phosphorus,
            Element::Sulfur,
            Element::Chlorine,
            Element::Argon,
            Element::Potassium,
            Element::Calcium,
            Element::Scandium,
            Element::Titanium,
            Element::Vanadium,
            Element::Chromium,
            Element::Manganese,
            Element::Iron,
            Element::Cobalt,
            Element::Nickel,
            Element::Copper,
            Element::Zinc,
            Element::Gallium,
            Element::Germanium,
            Element::Arsenic,
            Element::Selenium,
            Element::Bromine,
            Element::Krypton,
            Element::Rubidium,
            Element::Strontium,
            Element::Yttrium,
            Element::Zirconium,
            Element::Niobium,
            Element::Molybdenum,
            Element::Technetium,
            Element::Ruthenium,
            Element::Rhodium,
            Element::Palladium,
            Element::Silver,
            Element::Cadmium,
            Element::Indium,
            Element::Tin,
            Element::Antimony,
            Element::Tellurium,
            Element::Iodine,
            Element::Xenon,
            Element::Caesium,
            Element::Barium,
            Element::Lanthanum,
            Element::Cerium,
            Element::Praseodymium,
            Element::Neodymium,
            Element::Promethium,
            Element::Samarium,
            Element::Europium,
            Element::Gadolinium,
            Element::Terbium,
            Element::Dysprosium,
            Element::Holmium,
            Element::Erbium,
            Element::Thulium,
            Element::Ytterbium,
            Element::Lutetium,
            Element::Hafnium,
            Element::Tantalum,
            Element::Tungsten,
            Element::Rhenium,
            Element::Osmium,
            Element::Iridium,
            Element::Platinum,
            Element::Gold,
            Element::Mercury,
            Element::Thallium,
            Element::Lead,
            Element::Bismuth,
            Element::Polonium,
            Element::Astatine,
            Element::Radon,
            Element::Francium,
            Element::Radium,
            Element::Actinium,
            Element::Thorium,
            Element::Protactinium,
            Element::Uranium,
            Element::Neptunium,
            Element::Plutonium,
            Element::Americium,
            Element::Curium,
            Element::Berkelium,
            Element::Californium,
            Element::Einsteinium,
            Element::Fermium,
            Element::Mendelevium,
            Element::Nobelium,
            Element::Lawrencium,
            Element::Rutherfordium,
            Element::Dubnium,
            Element::Seaborgium,
            Element::Bohrium,
            Element::Hassium,
            Element::Meitnerium,
            Element::Darmstadtium,
            Element::Roentgenium,
            Element::Copernicium,
            Element::Nihonium,
            Element::Flerovium,
            Element::Moscovium,
            Element::Livermorium,
            Element::Tennessine,
            Element::Oganesson,
            ],
        };
        table
    }

    /// The element with the given symbol; `None` where no element has it.
    pub fn lookup(&self, symbol: &str) -> (found: Option<Element>)
        ensures
            found == element_named(symbol@),
    {
        proof {
            use_type_invariant(self);
        }
        let mut index: usize = 0;
        while index < self.elements.len()
            invariant
                index <= self.elements@.len(),
                self.elements@.len() == 118,
                forall|element: Element| #[trigger]
                    self.elements@[element.atomic_number() - 1] == element,
                forall|before: int|
                    0 <= before < index ==> (#[trigger] self.elements@[before]).spec_symbol()
                        != symbol@,
            decreases self.elements@.len() - index,
        {
            let element = self.elements[index];
            if text_eq(element.symbol(), symbol) {
                proof {
                    assert(element.spec_symbol() == symbol@);
                    lemma_element_named(element);
                }
                return Some(element);
            }
            index = index + 1;
        }
        proof {
            assert forall|element: Element| element.spec_symbol() != symbol@ by {
                assert(self.elements@[element.atomic_number() - 1] == element);
            }
        }
        None
    }
}

} // verus!
