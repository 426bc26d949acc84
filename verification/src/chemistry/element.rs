use vstd::prelude::*;

verus! {

/// A chemical element of the periodic table, in order of atomic number.
#[derive(Debug, Copy, Clone, Eq, Hash, PartialEq, Structural)]
pub enum Element {
    Hydrogen,
    Helium,
    Lithium,
    Beryllium,
    Boron,
    Carbon,
    Nitrogen,
    Oxygen,
    Fluorine,
    Neon,
    Sodium,
    Magnesium,
    Aluminium,
    Silicon,
    Phosphorus,
    Sulfur,
    Chlorine,
    Argon,
    Potassium,
    Calcium,
    Scandium,
    Titanium,
    Vanadium,
    Chromium,
    Manganese,
    Iron,
    Cobalt,
    Nickel,
    Copper,
    Zinc,
    Gallium,
    Germanium,
    Arsenic,
    Selenium,
    Bromine,
    Krypton,
    Rubidium,
    Strontium,
    Yttrium,
    Zirconium,
    Niobium,
    Molybdenum,
    Technetium,
    Ruthenium,
    Rhodium,
    Palladium,
    Silver,
    Cadmium,
    Indium,
    Tin,
    Antimony,
    Tellurium,
    Iodine,
    Xenon,
    Caesium,
    Barium,
    Lanthanum,
    Cerium,
    Praseodymium,
    Neodymium,
    Promethium,
    Samarium,
    Europium,
    Gadolinium,
    Terbium,
    Dysprosium,
    Holmium,
    Erbium,
    Thulium,
    Ytterbium,
    Lutetium,
    Hafnium,
    Tantalum,
    Tungsten,
    Rhenium,
    Osmium,
    Iridium,
    Platinum,
    Gold,
    Mercury,
    Thallium,
    Lead,
    Bismuth,
    Polonium,
    Astatine,
    Radon,
    Francium,
    Radium,
    Actinium,
    Thorium,
    Protactinium,
    Uranium,
    Neptunium,
    Plutonium,
    Americium,
    Curium,
    Berkelium,
    Californium,
    Einsteinium,
    Fermium,
    Mendelevium,
    Nobelium,
    Lawrencium,
    Rutherfordium,
    Dubnium,
    Seaborgium,
    Bohrium,
    Hassium,
    Meitnerium,
    Darmstadtium,
    Roentgenium,
    Copernicium,
    Nihonium,
    Flerovium,
    Moscovium,
    Livermorium,
    Tennessine,
    Oganesson,
}

/// How many units of atomic weight make one dalton: weights are held as whole
/// numbers of ten-thousandths of a dalton, which is exact for every tabulated
/// value.
pub const WEIGHT_SCALE: u64 = 10_000;

/// Whether `c` is one of the letters `A` to `Z`.
pub open spec fn is_upper(c: char) -> bool {
    'A' <= c <= 'Z'
}

/// Whether `c` is one of the letters `a` to `z`.
pub open spec fn is_lower(c: char) -> bool {
    'a' <= c <= 'z'
}

impl Element {
    /// The atomic number: the element's place in the periodic table, from 1.
    pub open spec fn atomic_number(self) -> nat {
        match self {
            Element::Hydrogen => 1,
            Element::Helium => 2,
            Element::Lithium => 3,
            Element::Beryllium => 4,
            Element::Boron => 5,
            Element::Carbon => 6,
            Element::Nitrogen => 7,
            Element::Oxygen => 8,
            Element::Fluorine => 9,
            Element::Neon => 10,
            Element::Sodium => 11,
            Element::Magnesium => 12,
            Element::Aluminium => 13,
            Element::Silicon => 14,
            Element::Phosphorus => 15,
            Element::Sulfur => 16,
            Element::Chlorine => 17,
            Element::Argon => 18,
            Element::Potassium => 19,
            Element::Calcium => 20,
            Element::Scandium => 21,
            Element::Titanium => 22,
            Element::Vanadium => 23,
            Element::Chromium => 24,
            Element::Manganese => 25,
            Element::Iron => 26,
            Element::Cobalt => 27,
            Element::Nickel => 28,
            Element::Copper => 29,
            Element::Zinc => 30,
            Element::Gallium => 31,
            Element::Germanium => 32,
            Element::Arsenic => 33,
            Element::Selenium => 34,
            Element::Bromine => 35,
            Element::Krypton => 36,
            Element::Rubidium => 37,
            Element::Strontium => 38,
            Element::Yttrium => 39,
            Element::Zirconium => 40,
            Element::Niobium => 41,
            Element::Molybdenum => 42,
            Element::Technetium => 43,
            Element::Ruthenium => 44,
            Element::Rhodium => 45,
            Element::Palladium => 46,
            Element::Silver => 47,
            Element::Cadmium => 48,
            Element::Indium => 49,
            Element::Tin => 50,
            Element::Antimony => 51,
            Element::Tellurium => 52,
            Element::Iodine => 53,
            Element::Xenon => 54,
            Element::Caesium => 55,
            Element::Barium => 56,
            Element::Lanthanum => 57,
            Element::Cerium => 58,
            Element::Praseodymium => 59,
            Element::Neodymium => 60,
            Element::Promethium => 61,
            Element::Samarium => 62,
            Element::Europium => 63,
            Element::Gadolinium => 64,
            Element::Terbium => 65,
            Element::Dysprosium => 66,
            Element::Holmium => 67,
            Element::Erbium => 68,
            Element::Thulium => 69,
            Element::Ytterbium => 70,
            Element::Lutetium => 71,
            Element::Hafnium => 72,
            Element::Tantalum => 73,
            Element::Tungsten => 74,
            Element::Rhenium => 75,
            Element::Osmium => 76,
            Element::Iridium => 77,
            Element::Platinum => 78,
            Element::Gold => 79,
            Element::Mercury => 80,
            Element::Thallium => 81,
            Element::Lead => 82,
            Element::Bismuth => 83,
            Element::Polonium => 84,
            Element::Astatine => 85,
            Element::Radon => 86,
            Element::Francium => 87,
            Element::Radium => 88,
            Element::Actinium => 89,
            Element::Thorium => 90,
            Element::Protactinium => 91,
            Element::Uranium => 92,
            Element::Neptunium => 93,
            Element::Plutonium => 94,
            Element::Americium => 95,
            Element::Curium => 96,
            Element::Berkelium => 97,
            Element::Californium => 98,
            Element::Einsteinium => 99,
            Element::Fermium => 100,
            Element::Mendelevium => 101,
            Element::Nobelium => 102,
            Element::Lawrencium => 103,
            Element::Rutherfordium => 104,
            Element::Dubnium => 105,
            Element::Seaborgium => 106,
            Element::Bohrium => 107,
            Element::Hassium => 108,
            Element::Meitnerium => 109,
            Element::Darmstadtium => 110,
            Element::Roentgenium => 111,
            Element::Copernicium => 112,
            Element::Nihonium => 113,
            Element::Flerovium => 114,
            Element::Moscovium => 115,
            Element::Livermorium => 116,
            Element::Tennessine => 117,
            Element::Oganesson => 118,
        }
    }

    /// The characters of the element's chemical symbol.
    pub open spec fn spec_symbol(self) -> Seq<char> {
        match self {
            Element::Hydrogen => seq!['H'],
            Element::Helium => seq!['H', 'e'],
            Element::Lithium => seq!['L', 'i'],
            Element::Beryllium => seq!['B', 'e'],
            Element::Boron => seq!['B'],
            Element::Carbon => seq!['C'],
            Element::Nitrogen => seq!['N'],
            Element::Oxygen => seq!['O'],
            Element::Fluorine => seq!['F'],
            Element::Neon => seq!['N', 'e'],
            Element::Sodium => seq!['N', 'a'],
            Element::Magnesium => seq!['M', 'g'],
            Element::Aluminium => seq!['A', 'l'],
            Element::Silicon => seq!['S', 'i'],
            Element::Phosphorus => seq!['P'],
            Element::Sulfur => seq!['S'],
            Element::Chlorine => seq!['C', 'l'],
            Element::Argon => seq!['A', 'r'],
            Element::Potassium => seq!['K'],
            Element::Calcium => seq!['C', 'a'],
            Element::Scandium => seq!['S', 'c'],
            Element::Titanium => seq!['T', 'i'],
            Element::Vanadium => seq!['V'],
            Element::Chromium => seq!['C', 'r'],
            Element::Manganese => seq!['M', 'n'],
            Element::Iron => seq!['F', 'e'],
            Element::Cobalt => seq!['C', 'o'],
            Element::Nickel => seq!['N', 'i'],
            Element::Copper => seq!['C', 'u'],
            Element::Zinc => seq!['Z', 'n'],
            Element::Gallium => seq!['G', 'a'],
            Element::Germanium => seq!['G', 'e'],
            Element::Arsenic => seq!['A', 's'],
            Element::Selenium => seq!['S', 'e'],
            Element::Bromine => seq!['B', 'r'],
            Element::Krypton => seq!['K', 'r'],
            Element::Rubidium => seq!['R', 'b'],
            Element::Strontium => seq!['S', 'r'],
            Element::Yttrium => seq!['Y'],
            Element::Zirconium => seq!['Z', 'r'],
            Element::Niobium => seq!['N', 'b'],
            Element::Molybdenum => seq!['M', 'o'],
            Element::Technetium => seq!['T', 'c'],
            Element::Ruthenium => seq!['R', 'u'],
            Element::Rhodium => seq!['R', 'h'],
            Element::Palladium => seq!['P', 'd'],
            Element::Silver => seq!['A', 'g'],
            Element::Cadmium => seq!['C', 'd'],
            Element::Indium => seq!['I', 'n'],
            Element::Tin => seq!['S', 'n'],
            Element::Antimony => seq!['S', 'b'],
            Element::Tellurium => seq!['T', 'e'],
            Element::Iodine => seq!['I'],
            Element::Xenon => seq!['X', 'e'],
            Element::Caesium => seq!['C', 's'],
            Element::Barium => seq!['B', 'a'],
            Element::Lanthanum => seq!['L', 'a'],
            Element::Cerium => seq!['C', 'e'],
            Element::Praseodymium => seq!['P', 'r'],
            Element::Neodymium => seq!['N', 'd'],
            Element::Promethium => seq!['P', 'm'],
            Element::Samarium => seq!['S', 'm'],
            Element::Europium => seq!['E', 'u'],
            Element::Gadolinium => seq!['G', 'd'],
            Element::Terbium => seq!['T', 'b'],
            Element::Dysprosium => seq!['D', 'y'],
            Element::Holmium => seq!['H', 'o'],
            Element::Erbium => seq!['E', 'r'],
            Element::Thulium => seq!['T', 'm'],
            Element::Ytterbium => seq!['Y', 'b'],
            Element::Lutetium => seq!['L', 'u'],
            Element::Hafnium => seq!['H', 'f'],
            Element::Tantalum => seq!['T', 'a'],
            Element::Tungsten => seq!['W'],
            Element::Rhenium => seq!['R', 'e'],
            Element::Osmium => seq!['O', 's'],
            Element::Iridium => seq!['I', 'r'],
            Element::Platinum => seq!['P', 't'],
            Element::Gold => seq!['A', 'u'],
            Element::Mercury => seq!['H', 'g'],
            Element::Thallium => seq!['T', 'l'],
            Element::Lead => seq!['P', 'b'],
            Element::Bismuth => seq!['B', 'i'],
            Element::Polonium => seq!['P', 'o'],
            Element::Astatine => seq!['A', 't'],
            Element::Radon => seq!['R', 'n'],
            Element::Francium => seq!['F', 'r'],
            Element::Radium => seq!['R', 'a'],
            Element::Actinium => seq!['A', 'c'],
            Element::Thorium => seq!['T', 'h'],
            Element::Protactinium => seq!['P', 'a'],
            Element::Uranium => seq!['U'],
            Element::Neptunium => seq!['N', 'p'],
            Element::Plutonium => seq!['P', 'u'],
            Element::Americium => seq!['A', 'm'],
            Element::Curium => seq!['C', 'm'],
            Element::Berkelium => seq!['B', 'k'],
            Element::Californium => seq!['C', 'f'],
            Element::Einsteinium => seq!['E', 's'],
            Element::Fermium => seq!['F', 'm'],
            Element::Mendelevium => seq!['M', 'd'],
            Element::Nobelium => seq!['N', 'o'],
            Element::Lawrencium => seq!['L', 'r'],
            Element::Rutherfordium => seq!['R', 'f'],
            Element::Dubnium => seq!['D', 'b'],
            Element::Seaborgium => seq!['S', 'g'],
            Element::Bohrium => seq!['B', 'h'],
            Element::Hassium => seq!['H', 's'],
            Element::Meitnerium => seq!['M', 't'],
            Element::Darmstadtium => seq!['D', 's'],
            Element::Roentgenium => seq!['R', 'g'],
            Element::Copernicium => seq!['C', 'n'],
            Element::Nihonium => seq!['N', 'h'],
            Element::Flerovium => seq!['F', 'l'],
            Element::Moscovium => seq!['M', 'c'],
            Element::Livermorium => seq!['L', 'v'],
            Element::Tennessine => seq!['T', 's'],
            Element::Oganesson => seq!['O', 'g'],
        }
    }

    /// The standard atomic weight in ten-thousandths of a dalton.
    pub open spec fn spec_atomic_weight(self) -> nat {
        match self {
            Element::Hydrogen => 10080,
            Element::Helium => 40020,
            Element::Lithium => 69400,
            Element::Beryllium => 90120,
            Element::Boron => 108100,
            Element::Carbon => 120110,
            Element::Nitrogen => 140070,
            Element::Oxygen => 159990,
            Element::Fluorine => 189980,
            Element::Neon => 201797,
            Element::Sodium => 229890,
            Element::Magnesium => 243050,
            Element::Aluminium => 269810,
            Element::Silicon => 280850,
            Element::Phosphorus => 309730,
            Element::Sulfur => 320600,
            Element::Chlorine => 354500,
            Element::Argon => 399500,
            Element::Potassium => 390983,
            Element::Calcium => 400780,
            Element::Scandium => 449550,
            Element::Titanium => 478670,
            Element::Vanadium => 509415,
            Element::Chromium => 519961,
            Element::Manganese => 549380,
            Element::Iron => 558450,
            Element::Cobalt => 589330,
            Element::Nickel => 586934,
            Element::Copper => 635460,
            Element::Zinc => 653800,
            Element::Gallium => 697230,
            Element::Germanium => 726300,
            Element::Arsenic => 749210,
            Element::Selenium => 789710,
            Element::Bromine => 799040,
            Element::Krypton => 837980,
            Element::Rubidium => 854678,
            Element::Strontium => 876200,
            Element::Yttrium => 889050,
            Element::Zirconium => 912240,
            Element::Niobium => 929060,
            Element::Molybdenum => 959500,
            Element::Technetium => 970000,
            Element::Ruthenium => 1010700,
            Element::Rhodium => 1029050,
            Element::Palladium => 1064200,
            Element::Silver => 1078682,
            Element::Cadmium => 1124140,
            Element::Indium => 1148180,
            Element::Tin => 1187100,
            Element::Antimony => 1217600,
            Element::Tellurium => 1276000,
            Element::Iodine => 1269040,
            Element::Xenon => 1312930,
            Element::Caesium => 1329050,
            Element::Barium => 1373270,
            Element::Lanthanum => 1389050,
            Element::Cerium => 1401160,
            Element::Praseodymium => 1409070,
            Element::Neodymium => 1442420,
            Element::Promethium => 1450000,
            Element::Samarium => 1503600,
            Element::Europium => 1519640,
            Element::Gadolinium => 1572500,
            Element::Terbium => 1589250,
            Element::Dysprosium => 1625000,
            Element::Holmium => 1649300,
            Element::Erbium => 1672590,
            Element::Thulium => 1689340,
            Element::Ytterbium => 1730450,
            Element::Lutetium => 1749668,
            Element::Hafnium => 1784860,
            Element::Tantalum => 1809470,
            Element::Tungsten => 1838400,
            Element::Rhenium => 1862070,
            Element::Osmium => 1902300,
            Element::Iridium => 1922170,
            Element::Platinum => 1950840,
            Element::Gold => 1969660,
            Element::Mercury => 2005920,
            Element::Thallium => 2043800,
            Element::Lead => 2072000,
            Element::Bismuth => 2089800,
            Element::Polonium => 2090000,
            Element::Astatine => 2100000,
            Element::Radon => 2220000,
            Element::Francium => 2230000,
            Element::Radium => 2260000,
            Element::Actinium => 2270000,
            Element::Thorium => 2320377,
            Element::Protactinium => 2310350,
            Element::Uranium => 2380280,
            Element::Neptunium => 2370000,
            Element::Plutonium => 2440000,
            Element::Americium => 2430000,
            Element::Curium => 2470000,
            Element::Berkelium => 2470000,
            Element::Californium => 2510000,
            Element::Einsteinium => 2520000,
            Element::Fermium => 2570000,
            Element::Mendelevium => 2580000,
            Element::Nobelium => 2590000,
            Element::Lawrencium => 2620000,
            Element::Rutherfordium => 2670000,
            Element::Dubnium => 2700000,
            Element::Seaborgium => 2690000,
            Element::Bohrium => 2700000,
            Element::Hassium => 2700000,
            Element::Meitnerium => 2780000,
            Element::Darmstadtium => 2810000,
            Element::Roentgenium => 2810000,
            Element::Copernicium => 2850000,
            Element::Nihonium => 2860000,
            Element::Flerovium => 2890000,
            Element::Moscovium => 2890000,
            Element::Livermorium => 2930000,
            Element::Tennessine => 2930000,
            Element::Oganesson => 2940000,
        }
    }

    /// The standard atomic weight, in units of which `WEIGHT_SCALE` make one
    /// dalton.
    pub fn atomic_weight(&self) -> (weight: u64)
        ensures
            weight == self.spec_atomic_weight(),
            0 < weight <= MAX_ATOMIC_WEIGHT,
    {
        match self {
            Element::Hydrogen => 10080,
            Element::Helium => 40020,
            Element::Lithium => 69400,
            Element::Beryllium => 90120,
            Element::Boron => 108100,
            Element::Carbon => 120110,
            Element::Nitrogen => 140070,
            Element::Oxygen => 159990,
            Element::Fluorine => 189980,
            Element::Neon => 201797,
            Element::Sodium => 229890,
            Element::Magnesium => 243050,
            Element::Aluminium => 269810,
            Element::Silicon => 280850,
            Element::Phosphorus => 309730,
            Element::Sulfur => 320600,
            Element::Chlorine => 354500,
            Element::Argon => 399500,
            Element::Potassium => 390983,
            Element::Calcium => 400780,
            Element::Scandium => 449550,
            Element::Titanium => 478670,
            Element::Vanadium => 509415,
            Element::Chromium => 519961,
            Element::Manganese => 549380,
            Element::Iron => 558450,
            Element::Cobalt => 589330,
            Element::Nickel => 586934,
            Element::Copper => 635460,
            Element::Zinc => 653800,
            Element::Gallium => 697230,
            Element::Germanium => 726300,
            Element::Arsenic => 749210,
            Element::Selenium => 789710,
            Element::Bromine => 799040,
            Element::Krypton => 837980,
            Element::Rubidium => 854678,
            Element::Strontium => 876200,
            Element::Yttrium => 889050,
            Element::Zirconium => 912240,
            Element::Niobium => 929060,
            Element::Molybdenum => 959500,
            Element::Technetium => 970000,
            Element::Ruthenium => 1010700,
            Element::Rhodium => 1029050,
            Element::Palladium => 1064200,
            Element::Silver => 1078682,
            Element::Cadmium => 1124140,
            Element::Indium => 1148180,
            Element::Tin => 1187100,
            Element::Antimony => 1217600,
            Element::Tellurium => 1276000,
            Element::Iodine => 1269040,
            Element::Xenon => 1312930,
            Element::Caesium => 1329050,
            Element::Barium => 1373270,
            Element::Lanthanum => 1389050,
            Element::Cerium => 1401160,
            Element::Praseodymium => 1409070,
            Element::Neodymium => 1442420,
            Element::Promethium => 1450000,
            Element::Samarium => 1503600,
            Element::Europium => 1519640,
            Element::Gadolinium => 1572500,
            Element::Terbium => 1589250,
            Element::Dysprosium => 1625000,
            Element::Holmium => 1649300,
            Element::Erbium => 1672590,
            Element::Thulium => 1689340,
            Element::Ytterbium => 1730450,
            Element::Lutetium => 1749668,
            Element::Hafnium => 1784860,
            Element::Tantalum => 1809470,
            Element::Tungsten => 1838400,
            Element::Rhenium => 1862070,
            Element::Osmium => 1902300,
            Element::Iridium => 1922170,
            Element::Platinum => 1950840,
            Element::Gold => 1969660,
            Element::Mercury => 2005920,
            Element::Thallium => 2043800,
            Element::Lead => 2072000,
            Element::Bismuth => 2089800,
            Element::Polonium => 2090000,
            Element::Astatine => 2100000,
            Element::Radon => 2220000,
            Element::Francium => 2230000,
            Element::Radium => 2260000,
            Element::Actinium => 2270000,
            Element::Thorium => 2320377,
            Element::Protactinium => 2310350,
            Element::Uranium => 2380280,
            Element::Neptunium => 2370000,
            Element::Plutonium => 2440000,
            Element::Americium => 2430000,
            Element::Curium => 2470000,
            Element::Berkelium => 2470000,
            Element::Californium => 2510000,
            Element::Einsteinium => 2520000,
            Element::Fermium => 2570000,
            Element::Mendelevium => 2580000,
            Element::Nobelium => 2590000,
            Element::Lawrencium => 2620000,
            Element::Rutherfordium => 2670000,
            Element::Dubnium => 2700000,
            Element::Seaborgium => 2690000,
            Element::Bohrium => 2700000,
            Element::Hassium => 2700000,
            Element::Meitnerium => 2780000,
            Element::Darmstadtium => 2810000,
            Element::Roentgenium => 2810000,
            Element::Copernicium => 2850000,
            Element::Nihonium => 2860000,
            Element::Flerovium => 2890000,
            Element::Moscovium => 2890000,
            Element::Livermorium => 2930000,
            Element::Tennessine => 2930000,
            Element::Oganesson => 2940000,
        }
    }

    /// The chemical symbol: one capital letter, for most elements followed by
    /// one small letter.
    pub fn symbol(&self) -> (text: &'static str)
        ensures
            text@ == self.spec_symbol(),
    {
        match self {
            Element::Hydrogen => {
                proof {
                    reveal_strlit("H");
                }
                "H"
            },
            Element::Helium => {
                proof {
                    reveal_strlit("He");
                }
                "He"
            },
            Element::Lithium => {
                proof {
                    reveal_strlit("Li");
                }
                "Li"
            },
            Element::Beryllium => {
                proof {
                    reveal_strlit("Be");
                }
                "Be"
            },
            Element::Boron => {
                proof {
                    reveal_strlit("B");
                }
                "B"
            },
            Element::Carbon => {
                proof {
                    reveal_strlit("C");
                }
                "C"
            },
            Element::Nitrogen => {
                proof {
                    reveal_strlit("N");
                }
                "N"
            },
            Element::Oxygen => {
                proof {
                    reveal_strlit("O");
                }
                "O"
            },
            Element::Fluorine => {
                proof {
                    reveal_strlit("F");
                }
                "F"
            },
            Element::Neon => {
                proof {
                    reveal_strlit("Ne");
                }
                "Ne"
            },
            Element::Sodium => {
                proof {
                    reveal_strlit("Na");
                }
                "Na"
            },
            Element::Magnesium => {
                proof {
                    reveal_strlit("Mg");
                }
                "Mg"
            },
            Element::Aluminium => {
                proof {
                    reveal_strlit("Al");
                }
                "Al"
            },
            Element::Silicon => {
                proof {
                    reveal_strlit("Si");
                }
                "Si"
            },
            Element::Phosphorus => {
                proof {
                    reveal_strlit("P");
                }
                "P"
            },
            Element::Sulfur => {
                proof {
                    reveal_strlit("S");
                }
                "S"
            },
            Element::Chlorine => {
                proof {
                    reveal_strlit("Cl");
                }
                "Cl"
            },
            Element::Argon => {
                proof {
                    reveal_strlit("Ar");
                }
                "Ar"
            },
            Element::Potassium => {
                proof {
                    reveal_strlit("K");
                }
                "K"
            },
            Element::Calcium => {
                proof {
                    reveal_strlit("Ca");
                }
                "Ca"
            },
            Element::Scandium => {
                proof {
                    reveal_strlit("Sc");
                }
                "Sc"
            },
            Element::Titanium => {
                proof {
                    reveal_strlit("Ti");
                }
                "Ti"
            },
            Element::Vanadium => {
                proof {
                    reveal_strlit("V");
                }
                "V"
            },
            Element::Chromium => {
                proof {
                    reveal_strlit("Cr");
                }
                "Cr"
            },
            Element::Manganese => {
                proof {
                    reveal_strlit("Mn");
                }
                "Mn"
            },
            Element::Iron => {
                proof {
                    reveal_strlit("Fe");
                }
                "Fe"
            },
            Element::Cobalt => {
                proof {
                    reveal_strlit("Co");
                }
                "Co"
            },
            Element::Nickel => {
                proof {
                    reveal_strlit("Ni");
                }
                "Ni"
            },
            Element::Copper => {
                proof {
                    reveal_strlit("Cu");
                }
                "Cu"
            },
            Element::Zinc => {
                proof {
                    reveal_strlit("Zn");
                }
                "Zn"
            },
            Element::Gallium => {
                proof {
                    reveal_strlit("Ga");
                }
                "Ga"
            },
            Element::Germanium => {
                proof {
                    reveal_strlit("Ge");
                }
                "Ge"
            },
            Element::Arsenic => {
                proof {
                    reveal_strlit("As");
                }
                "As"
            },
            Element::Selenium => {
                proof {
                    reveal_strlit("Se");
                }
                "Se"
            },
            Element::Bromine => {
                proof {
                    reveal_strlit("Br");
                }
                "Br"
            },
            Element::Krypton => {
                proof {
                    reveal_strlit("Kr");
                }
                "Kr"
            },
            Element::Rubidium => {
                proof {
                    reveal_strlit("Rb");
                }
                "Rb"
            },
            Element::Strontium => {
                proof {
                    reveal_strlit("Sr");
                }
                "Sr"
            },
            Element::Yttrium => {
                proof {
                    reveal_strlit("Y");
                }
                "Y"
            },
            Element::Zirconium => {
                proof {
                    reveal_strlit("Zr");
                }
                "Zr"
            },
            Element::Niobium => {
                proof {
                    reveal_strlit("Nb");
                }
                "Nb"
            },
            Element::Molybdenum => {
                proof {
                    reveal_strlit("Mo");
                }
                "Mo"
            },
            Element::Technetium => {
                proof {
                    reveal_strlit("Tc");
                }
                "Tc"
            },
            Element::Ruthenium => {
                proof {
                    reveal_strlit("Ru");
                }
                "Ru"
            },
            Element::Rhodium => {
                proof {
                    reveal_strlit("Rh");
                }
                "Rh"
            },
            Element::Palladium => {
                proof {
                    reveal_strlit("Pd");
                }
                "Pd"
            },
            Element::Silver => {
                proof {
                    reveal_strlit("Ag");
                }
                "Ag"
            },
            Element::Cadmium => {
                proof {
                    reveal_strlit("Cd");
                }
                "Cd"
            },
            Element::Indium => {
                proof {
                    reveal_strlit("In");
                }
                "In"
            },
            Element::Tin => {
                proof {
                    reveal_strlit("Sn");
                }
                "Sn"
            },
            Element::Antimony => {
                proof {
                    reveal_strlit("Sb");
                }
                "Sb"
            },
            Element::Tellurium => {
                proof {
                    reveal_strlit("Te");
                }
                "Te"
            },
            Element::Iodine => {
                proof {
                    reveal_strlit("I");
                }
                "I"
            },
            Element::Xenon => {
                proof {
                    reveal_strlit("Xe");
                }
                "Xe"
            },
            Element::Caesium => {
                proof {
                    reveal_strlit("Cs");
                }
                "Cs"
            },
            Element::Barium => {
                proof {
                    reveal_strlit("Ba");
                }
                "Ba"
            },
            Element::Lanthanum => {
                proof {
                    reveal_strlit("La");
                }
                "La"
            },
            Element::Cerium => {
                proof {
                    reveal_strlit("Ce");
                }
                "Ce"
            },
            Element::Praseodymium => {
                proof {
                    reveal_strlit("Pr");
                }
                "Pr"
            },
            Element::Neodymium => {
                proof {
                    reveal_strlit("Nd");
                }
                "Nd"
            },
            Element::Promethium => {
                proof {
                    reveal_strlit("Pm");
                }
                "Pm"
            },
            Element::Samarium => {
                proof {
                    reveal_strlit("Sm");
                }
                "Sm"
            },
            Element::Europium => {
                proof {
                    reveal_strlit("Eu");
                }
                "Eu"
            },
            Element::Gadolinium => {
                proof {
                    reveal_strlit("Gd");
                }
                "Gd"
            },
            Element::Terbium => {
                proof {
                    reveal_strlit("Tb");
                }
                "Tb"
            },
            Element::Dysprosium => {
                proof {
                    reveal_strlit("Dy");
                }
                "Dy"
            },
            Element::Holmium => {
                proof {
                    reveal_strlit("Ho");
                }
                "Ho"
            },
            Element::Erbium => {
                proof {
                    reveal_strlit("Er");
                }
                "Er"
            },
            Element::Thulium => {
                proof {
                    reveal_strlit("Tm");
                }
                "Tm"
            },
            Element::Ytterbium => {
                proof {
                    reveal_strlit("Yb");
                }
                "Yb"
            },
            Element::Lutetium => {
                proof {
                    reveal_strlit("Lu");
                }
                "Lu"
            },
            Element::Hafnium => {
                proof {
                    reveal_strlit("Hf");
                }
                "Hf"
            },
            Element::Tantalum => {
                proof {
                    reveal_strlit("Ta");
                }
                "Ta"
            },
            Element::Tungsten => {
                proof {
                    reveal_strlit("W");
                }
                "W"
            },
            Element::Rhenium => {
                proof {
                    reveal_strlit("Re");
                }
                "Re"
            },
            Element::Osmium => {
                proof {
                    reveal_strlit("Os");
                }
                "Os"
            },
            Element::Iridium => {
                proof {
                    reveal_strlit("Ir");
                }
                "Ir"
            },
            Element::Platinum => {
                proof {
                    reveal_strlit("Pt");
                }
                "Pt"
            },
            Element::Gold => {
                proof {
                    reveal_strlit("Au");
                }
                "Au"
            },
            Element::Mercury => {
                proof {
                    reveal_strlit("Hg");
                }
                "Hg"
            },
            Element::Thallium => {
                proof {
                    reveal_strlit("Tl");
                }
                "Tl"
            },
            Element::Lead => {
                proof {
                    reveal_strlit("Pb");
                }
                "Pb"
            },
            Element::Bismuth => {
                proof {
                    reveal_strlit("Bi");
                }
                "Bi"
            },
            Element::Polonium => {
                proof {
                    reveal_strlit("Po");
                }
                "Po"
            },
            Element::Astatine => {
                proof {
                    reveal_strlit("At");
                }
                "At"
            },
            Element::Radon => {
                proof {
                    reveal_strlit("Rn");
                }
                "Rn"
            },
            Element::Francium => {
                proof {
                    reveal_strlit("Fr");
                }
                "Fr"
            },
            Element::Radium => {
                proof {
                    reveal_strlit("Ra");
                }
                "Ra"
            },
            Element::Actinium => {
                proof {
                    reveal_strlit("Ac");
                }
                "Ac"
            },
            Element::Thorium => {
                proof {
                    reveal_strlit("Th");
                }
                "Th"
            },
            Element::Protactinium => {
                proof {
                    reveal_strlit("Pa");
                }
                "Pa"
            },
            Element::Uranium => {
                proof {
                    reveal_strlit("U");
                }
                "U"
            },
            Element::Neptunium => {
                proof {
                    reveal_strlit("Np");
                }
                "Np"
            },
            Element::Plutonium => {
                proof {
                    reveal_strlit("Pu");
                }
                "Pu"
            },
            Element::Americium => {
                proof {
                    reveal_strlit("Am");
                }
                "Am"
            },
            Element::Curium => {
                proof {
                    reveal_strlit("Cm");
                }
                "Cm"
            },
            Element::Berkelium => {
                proof {
                    reveal_strlit("Bk");
                }
                "Bk"
            },
            Element::Californium => {
                proof {
                    reveal_strlit("Cf");
                }
                "Cf"
            },
            Element::Einsteinium => {
                proof {
                    reveal_strlit("Es");
                }
                "Es"
            },
            Element::Fermium => {
                proof {
                    reveal_strlit("Fm");
                }
                "Fm"
            },
            Element::Mendelevium => {
                proof {
                    reveal_strlit("Md");
                }
                "Md"
            },
            Element::Nobelium => {
                proof {
                    reveal_strlit("No");
                }
                "No"
            },
            Element::Lawrencium => {
                proof {
                    reveal_strlit("Lr");
                }
                "Lr"
            },
            Element::Rutherfordium => {
                proof {
                    reveal_strlit("Rf");
                }
                "Rf"
            },
            Element::Dubnium => {
                proof {
                    reveal_strlit("Db");
                }
                "Db"
            },
            Element::Seaborgium => {
                proof {
                    reveal_strlit("Sg");
                }
                "Sg"
            },
            Element::Bohrium => {
                proof {
                    reveal_strlit("Bh");
                }
                "Bh"
            },
            Element::Hassium => {
                proof {
                    reveal_strlit("Hs");
                }
                "Hs"
            },
            Element::Meitnerium => {
                proof {
                    reveal_strlit("Mt");
                }
                "Mt"
            },
            Element::Darmstadtium => {
                proof {
                    reveal_strlit("Ds");
                }
                "Ds"
            },
            Element::Roentgenium => {
                proof {
                    reveal_strlit("Rg");
                }
                "Rg"
            },
            Element::Copernicium => {
                proof {
                    reveal_strlit("Cn");
                }
                "Cn"
            },
            Element::Nihonium => {
                proof {
                    reveal_strlit("Nh");
                }
                "Nh"
            },
            Element::Flerovium => {
                proof {
                    reveal_strlit("Fl");
                }
                "Fl"
            },
            Element::Moscovium => {
                proof {
                    reveal_strlit("Mc");
                }
                "Mc"
            },
            Element::Livermorium => {
                proof {
                    reveal_strlit("Lv");
                }
                "Lv"
            },
            Element::Tennessine => {
                proof {
                    reveal_strlit("Ts");
                }
                "Ts"
            },
            Element::Oganesson => {
                proof {
                    reveal_strlit("Og");
                }
                "Og"
            },
        }
    }
}

/// The largest atomic weight in the table.
pub const MAX_ATOMIC_WEIGHT: u64 = 2_940_000;

/// Every element has weight.
pub proof fn lemma_weight_positive(element: Element)
    ensures
        1 <= element.spec_atomic_weight() <= MAX_ATOMIC_WEIGHT,
{
}

/// Every symbol is a capital letter followed by at most one small letter.
pub proof fn lemma_symbol_shape(element: Element)
    ensures
        1 <= element.spec_symbol().len() <= 2,
        is_upper(element.spec_symbol()[0]),
        element.spec_symbol().len() == 2 ==> is_lower(element.spec_symbol()[1]),
{
}

/// A number that stands for a symbol of one or two characters: the first
/// character's code point times 256, plus the second's where there is one.
spec fn symbol_code(text: Seq<char>) -> int {
    if text.len() == 2 {
        text[0] as int * 256 + text[1] as int
    } else {
        text[0] as int * 256
    }
}

/// The code of each element's symbol, written out.
spec fn element_code(element: Element) -> int {
    match element {
        Element::Hydrogen => 18432,
        Element::Helium => 18533,
        Element::Lithium => 19561,
        Element::Beryllium => 16997,
        Element::Boron => 16896,
        Element::Carbon => 17152,
        Element::Nitrogen => 19968,
        Element::Oxygen => 20224,
        Element::Fluorine => 17920,
        Element::Neon => 20069,
        Element::Sodium => 20065,
        Element::Magnesium => 19815,
        Element::Aluminium => 16748,
        Element::Silicon => 21353,
        Element::Phosphorus => 20480,
        Element::Sulfur => 21248,
        Element::Chlorine => 17260,
        Element::Argon => 16754,
        Element::Potassium => 19200,
        Element::Calcium => 17249,
        Element::Scandium => 21347,
        Element::Titanium => 21609,
        Element::Vanadium => 22016,
        Element::Chromium => 17266,
        Element::Manganese => 19822,
        Element::Iron => 18021,
        Element::Cobalt => 17263,
        Element::Nickel => 20073,
        Element::Copper => 17269,
        Element::Zinc => 23150,
        Element::Gallium => 18273,
        Element::Germanium => 18277,
        Element::Arsenic => 16755,
        Element::Selenium => 21349,
        Element::Bromine => 17010,
        Element::Krypton => 19314,
        Element::Rubidium => 21090,
        Element::Strontium => 21362,
        Element::Yttrium => 22784,
        Element::Zirconium => 23154,
        Element::Niobium => 20066,
        Element::Molybdenum => 19823,
        Element::Technetium => 21603,
        Element::Ruthenium => 21109,
        Element::Rhodium => 21096,
        Element::Palladium => 20580,
        Element::Silver => 16743,
        Element::Cadmium => 17252,
        Element::Indium => 18798,
        Element::Tin => 21358,
        Element::Antimony => 21346,
        Element::Tellurium => 21605,
        Element::Iodine => 18688,
        Element::Xenon => 22629,
        Element::Caesium => 17267,
        Element::Barium => 16993,
        Element::Lanthanum => 19553,
        Element::Cerium => 17253,
        Element::Praseodymium => 20594,
        Element::Neodymium => 20068,
        Element::Promethium => 20589,
        Element::Samarium => 21357,
        Element::Europium => 17781,
        Element::Gadolinium => 18276,
        Element::Terbium => 21602,
        Element::Dysprosium => 17529,
        Element::Holmium => 18543,
        Element::Erbium => 17778,
        Element::Thulium => 21613,
        Element::Ytterbium => 22882,
        Element::Lutetium => 19573,
        Element::Hafnium => 18534,
        Element::Tantalum => 21601,
        Element::Tungsten => 22272,
        Element::Rhenium => 21093,
        Element::Osmium => 20339,
        Element::Iridium => 18802,
        Element::Platinum => 20596,
        Element::Gold => 16757,
        Element::Mercury => 18535,
        Element::Thallium => 21612,
        Element::Lead => 20578,
        Element::Bismuth => 17001,
        Element::Polonium => 20591,
        Element::Astatine => 16756,
        Element::Radon => 21102,
        Element::Francium => 18034,
        Element::Radium => 21089,
        Element::Actinium => 16739,
        Element::Thorium => 21608,
        Element::Protactinium => 20577,
        Element::Uranium => 21760,
        Element::Neptunium => 20080,
        Element::Plutonium => 20597,
        Element::Americium => 16749,
        Element::Curium => 17261,
        Element::Berkelium => 17003,
        Element::Californium => 17254,
        Element::Einsteinium => 17779,
        Element::Fermium => 18029,
        Element::Mendelevium => 19812,
        Element::Nobelium => 20079,
        Element::Lawrencium => 19570,
        Element::Rutherfordium => 21094,
        Element::Dubnium => 17506,
        Element::Seaborgium => 21351,
        Element::Bohrium => 17000,
        Element::Hassium => 18547,
        Element::Meitnerium => 19828,
        Element::Darmstadtium => 17523,
        Element::Roentgenium => 21095,
        Element::Copernicium => 17262,
        Element::Nihonium => 20072,
        Element::Flerovium => 18028,
        Element::Moscovium => 19811,
        Element::Livermorium => 19574,
        Element::Tennessine => 21619,
        Element::Oganesson => 20327,
    }
}

proof fn lemma_element_code(element: Element)
    ensures
        symbol_code(element.spec_symbol()) == element_code(element),
{
}

/// No two elements share a symbol.
pub proof fn lemma_symbol_injective(a: Element, b: Element)
    requires
        a.spec_symbol() == b.spec_symbol(),
    ensures
        a == b,
{
    lemma_element_code(a);
    lemma_element_code(b);
}

} // verus!
