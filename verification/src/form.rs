//! Form building blocks: the status machine and the input fields.

pub mod form_inputs;
pub mod form_status;
