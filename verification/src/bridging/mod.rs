//! The values and the errors that cross from Javascript to Python.
pub mod exception;
pub mod undefined;
pub mod value;
pub mod value_laws;
