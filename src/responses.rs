use vstd::prelude::*;

use crate::amino_acid::{texts_of, AminoAcid};
use crate::side_chain::side_chain_name;
use crate::weight::MolecularWeight;

verus! {

/// The full record.
pub struct AminoAcidResponse {
    pub amino_acid: AminoAcid,
}

/// The name, short name and abbreviation of a record.
pub struct AminoAcidNameResponse {
    pub name: String,
    pub short_name: String,
    pub abbreviation: String,
}

/// The name and side chain of a record.
pub struct AminoAcidSideChainResponse {
    pub name: String,
    pub side_chain: String,
}

/// The name and molecular weight of a record.
pub struct AminoAcidMolecularWeightResponse {
    pub name: String,
    pub molecular_weight: MolecularWeight,
}

/// The name and codons of a record.
pub struct AminoAcidCodonResponse {
    pub name: String,
    pub codon: Vec<String>,
}

/// The name and number of codons of a record.
pub struct AminoAcidCodonCountResponse {
    pub name: String,
    pub codon_count: usize,
}

/// The name and short name of a record.
pub struct AminoAcidShortNameResponse {
    pub name: String,
    pub short_name: String,
}

/// The name and abbreviation of a record.
pub struct AminoAcidAbbreviationResponse {
    pub name: String,
    pub abbreviation: String,
}

/// The greeting at the root of the service.
pub struct RootResponse {
    pub message: String,
}

/// The payload of a failed request.
pub struct ErrorResponse {
    pub error: String,
}

impl AminoAcidResponse {
    /// The projection of a record onto this shape.
    pub fn from_amino_acid(a: &AminoAcid) -> (r: AminoAcidResponse)
        ensures
            r.amino_acid@ == a@,
    {
        AminoAcidResponse { amino_acid: a.clone() }
    }
}

impl AminoAcidNameResponse {
    /// The projection of a record onto this shape.
    pub fn from_amino_acid(a: &AminoAcid) -> (r: AminoAcidNameResponse)
        ensures
            r.name@ == a@.name,
            r.short_name@ == a@.short_name,
            r.abbreviation@ == a@.abbreviation,
    {
        AminoAcidNameResponse {
            name: a.get_name(),
            short_name: a.get_short_name(),
            abbreviation: a.get_abbreviation(),
        }
    }
}

impl AminoAcidSideChainResponse {
    /// The projection of a record onto this shape.
    pub fn from_amino_acid(a: &AminoAcid) -> (r: AminoAcidSideChainResponse)
        ensures
            r.name@ == a@.name,
            r.side_chain@ == side_chain_name(a@.side_chain),
    {
        AminoAcidSideChainResponse { name: a.get_name(), side_chain: a.get_side_chain().to_string() }
    }
}

impl AminoAcidMolecularWeightResponse {
    /// The projection of a record onto this shape.
    pub fn from_amino_acid(a: &AminoAcid) -> (r: AminoAcidMolecularWeightResponse)
        ensures
            r.name@ == a@.name,
            r.molecular_weight == a@.molecular_weight,
    {
        AminoAcidMolecularWeightResponse {
            name: a.get_name(),
            molecular_weight: a.get_molecular_weight(),
        }
    }
}

impl AminoAcidCodonResponse {
    /// The projection of a record onto this shape.
    pub fn from_amino_acid(a: &AminoAcid) -> (r: AminoAcidCodonResponse)
        ensures
            r.name@ == a@.name,
            texts_of(r.codon@) == a@.codon,
    {
        AminoAcidCodonResponse { name: a.get_name(), codon: a.get_codon() }
    }
}

impl AminoAcidCodonCountResponse {
    /// The projection of a record onto this shape.
    pub fn from_amino_acid(a: &AminoAcid) -> (r: AminoAcidCodonCountResponse)
        ensures
            r.name@ == a@.name,
            r.codon_count == a@.codon.len(),
    {
        AminoAcidCodonCountResponse { name: a.get_name(), codon_count: a.get_codon_count() }
    }
}

impl AminoAcidShortNameResponse {
    /// The projection of a record onto this shape.
    pub fn from_amino_acid(a: &AminoAcid) -> (r: AminoAcidShortNameResponse)
        ensures
            r.name@ == a@.name,
            r.short_name@ == a@.short_name,
    {
        AminoAcidShortNameResponse { name: a.get_name(), short_name: a.get_short_name() }
    }
}

impl AminoAcidAbbreviationResponse {
    /// The projection of a record onto this shape.
    pub fn from_amino_acid(a: &AminoAcid) -> (r: AminoAcidAbbreviationResponse)
        ensures
            r.name@ == a@.name,
            r.abbreviation@ == a@.abbreviation,
    {
        AminoAcidAbbreviationResponse { name: a.get_name(), abbreviation: a.get_abbreviation() }
    }
}

} // verus!
