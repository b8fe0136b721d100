pub mod encoding;
pub mod file;
pub mod format;
pub mod handling;
pub mod language;
pub mod mode;
pub mod utf8;
