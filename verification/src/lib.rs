//! BahyWay v4 sovereign library: access control, the HeptaScript query
//! vocabulary, the KUPRU cryptographic layer and the supporting engines.

pub mod text;
pub mod istar;
pub mod heptascript;
pub mod homt;
pub mod kupru;
pub mod kittu;
pub mod iris;
pub mod ishum;
pub mod kinetic;
pub mod kidinnu;
pub mod kupru_vault;
pub mod kupru_bridge;
pub mod idu;
