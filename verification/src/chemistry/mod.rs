pub mod element;
pub mod table;

pub use element::Element;
pub use element::Element as ChemicalElement;
pub use table::Table;
