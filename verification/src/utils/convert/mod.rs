pub mod scan;

pub use scan::ScanOutput;
