//! Calculation configuration model for a quantum-chemistry front-end.
//!
//! The library owns the user-editable calculation settings (run type,
//! reference method, optional correlation method, basis set, charge,
//! multiplicity and a coordinate text block) and the rules for updating
//! them in response to discrete edit events. A presentation layer drives
//! the model and renders its fields; the model knows nothing of widgets.

pub mod basis;
pub mod methods;
pub mod model;
pub mod parse;
pub mod settings;
