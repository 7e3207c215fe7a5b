pub mod convert;
pub mod error;
pub mod strings;
pub mod extract;
