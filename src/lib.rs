//! Small idioms, each with its behaviour stated and proved: a light whose
//! legal operations depend on its state (checked at run time, or carried in
//! its type), a builder, extension traits, and a configuration record.
pub mod model;
pub mod light;
pub mod luz;
pub mod lumiere;
pub mod factorial;
pub mod more_factorial;
pub mod urgency;
pub mod person;
pub mod config;
