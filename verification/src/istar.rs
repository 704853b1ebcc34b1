//! Istar — sovereign access control: five constitutional meta rules and a
//! priority-ordered rule engine.

pub mod akk_firewall;
pub mod error;
