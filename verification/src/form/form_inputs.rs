//! The two kinds of form field: free text and a choice among fixed options.

pub mod enum_field;
pub mod string_field;
