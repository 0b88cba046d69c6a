pub mod cs;
pub mod errors;
pub mod field;
pub mod flatten;
pub mod generators;
pub mod ipp;
pub mod megacheck;
pub mod points;
pub mod scalar;
pub mod transcript;
pub mod types;
