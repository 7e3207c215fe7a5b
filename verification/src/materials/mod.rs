pub mod formula;
pub mod mdf;
pub mod names;
pub mod properties;
pub mod registry;
pub mod set;
pub mod toml;

pub use formula::{FormulaTerm, parse_formula};
pub use set::{MaterialsData, MaterialsSet, MaterialsSubscriber, VersionSource};
