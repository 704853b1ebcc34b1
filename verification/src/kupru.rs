//! KUPRU — the sovereign cryptographic layer: cipher, seals, key
//! derivation, hashing, linguistic proofs, the .akk file format and the
//! Sargon passport.

pub mod akk_cipher;
pub mod akk_file;
pub mod architect_key;
pub mod akkadian_root;
pub mod akkadian_seal;
pub mod canonical;
pub mod error;
pub mod passport;
pub mod passport_seal;
pub mod primitives;
pub mod sargon_kdf;
pub mod sovereign_hash;
