//! Amino acid reference data: the record model, case-insensitive lookup by
//! name, and the response shapes that the HTTP surface hands out.

pub mod side_chain;
pub mod weight;
pub mod amino_acid;
pub mod lookup;
pub mod responses;
pub mod routes;
