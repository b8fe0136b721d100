pub mod file;
pub mod format;
