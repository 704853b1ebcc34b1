//! HeptaScript — the W5H2 sovereign query vocabulary: the five sovereign
//! operations, orbit objects, the query clause types and the pure parts
//! of planning and evaluation.

pub mod operations;
pub mod orbit_objects;
pub mod query;
pub mod grammar;
pub mod grammar_laws;
pub mod parser;
pub mod token;
pub mod engine;
pub mod indexed;
pub mod modular_index;
pub mod sumuukin;
