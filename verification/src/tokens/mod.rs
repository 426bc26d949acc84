pub mod component;
pub mod element;
pub mod group;
pub mod hydrate;
pub mod substance;
pub mod symbol;

pub use component::Component;
pub use element::Element;
pub use group::Group;
pub use hydrate::Hydrate;
pub use substance::Substance;
pub use symbol::Symbol;
