pub mod component;
pub mod compound;

pub use component::Component;
pub use compound::Compound;
