pub mod display_duration_ext;
pub mod format;
