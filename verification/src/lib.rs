//! Sparse scan of a block device or image for the first gigabyte that holds data.

pub mod device;
pub mod errors;
pub mod globals;
pub mod report;
pub mod run;
pub mod scan;
pub mod seek;
pub mod size;
pub mod size_query;
