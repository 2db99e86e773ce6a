pub mod finder;
pub mod paths;
pub mod scan;

pub use finder::ConfigFinder;
pub use scan::DirEntry;
pub use scan::DirListing;
pub use scan::ScanError;
pub use scan::ScanErrorView;
