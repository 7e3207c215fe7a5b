pub mod arguments;
pub mod flux;
pub mod materials;
pub mod notifier;
pub mod particle;
pub mod physics;
pub mod reference;
pub mod transport;
