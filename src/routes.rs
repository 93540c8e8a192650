use vstd::prelude::*;

use crate::amino_acid::AminoAcid;
use crate::lookup::{lookup, match_amino_acid, records_of};
use crate::responses::{
    AminoAcidAbbreviationResponse, AminoAcidMolecularWeightResponse, AminoAcidNameResponse,
    AminoAcidResponse, AminoAcidShortNameResponse, AminoAcidSideChainResponse, ErrorResponse,
    RootResponse,
};
use crate::side_chain::side_chain_name;

verus! {

/// The HTTP status of a request that succeeded.
pub const STATUS_OK: u16 = 200;

/// The HTTP status of a request whose amino acid is unknown.
pub const STATUS_NOT_FOUND: u16 = 404;

/// The greeting at the root.
pub open spec fn welcome_text() -> Seq<char> {
    "Welcome to the Amino Acid API"@
}

/// The error text of an unknown amino acid.
pub open spec fn not_found_text() -> Seq<char> {
    "Amino Acid not found"@
}

/// The failure that every lookup route gives for an unknown amino acid.
pub open spec fn is_not_found(e: (u16, ErrorResponse)) -> bool {
    e.0 == STATUS_NOT_FOUND && e.1.error@ == not_found_text()
}

fn not_found() -> (r: (u16, ErrorResponse))
    ensures
        is_not_found(r),
{
    (STATUS_NOT_FOUND, ErrorResponse { error: String::from_str("Amino Acid not found") })
}

/// The answer at the root: the greeting, always with success.
pub fn get_root() -> (r: Result<(u16, RootResponse), ErrorResponse>)
    ensures
        r matches Ok((code, body)) && code == STATUS_OK && body.message@ == welcome_text(),
{
    Ok((STATUS_OK, RootResponse { message: String::from_str("Welcome to the Amino Acid API") }))
}

/// The full record of the amino acid named by `amino_acid`, or not found.
pub fn get_amino_acid(amino_acids: &Vec<AminoAcid>, amino_acid: &str) -> (r: Result<
    (u16, AminoAcidResponse),
    (u16, ErrorResponse),
>)
    ensures
        match r {
            Ok((code, body)) => code == STATUS_OK && lookup(records_of(amino_acids@), amino_acid@)
                == Some(body.amino_acid@),
            Err(e) => is_not_found(e) && lookup(records_of(amino_acids@), amino_acid@) is None,
        },
{
    match match_amino_acid(amino_acids, amino_acid) {
        None => Err(not_found()),
        Some(a) => Ok((STATUS_OK, AminoAcidResponse::from_amino_acid(&a))),
    }
}

/// The name, short name and abbreviation of the amino acid named by `amino_acid`, or not
/// found.
pub fn get_amino_acid_name(amino_acids: &Vec<AminoAcid>, amino_acid: &str) -> (r: Result<
    (u16, AminoAcidNameResponse),
    (u16, ErrorResponse),
>)
    ensures
        match r {
            Ok((code, body)) => lookup(records_of(amino_acids@), amino_acid@) matches Some(a)
                && code == STATUS_OK && body.name@ == a.name && body.short_name@ == a.short_name
                && body.abbreviation@ == a.abbreviation,
            Err(e) => is_not_found(e) && lookup(records_of(amino_acids@), amino_acid@) is None,
        },
{
    match match_amino_acid(amino_acids, amino_acid) {
        None => Err(not_found()),
        Some(a) => Ok((STATUS_OK, AminoAcidNameResponse::from_amino_acid(&a))),
    }
}

/// The name and short name of the amino acid named by `amino_acid`, or not found.
pub fn get_amino_acid_short_name(amino_acids: &Vec<AminoAcid>, amino_acid: &str) -> (r: Result<
    (u16, AminoAcidShortNameResponse),
    (u16, ErrorResponse),
>)
    ensures
        match r {
            Ok((code, body)) => lookup(records_of(amino_acids@), amino_acid@) matches Some(a)
                && code == STATUS_OK && body.name@ == a.name && body.short_name@ == a.short_name,
            Err(e) => is_not_found(e) && lookup(records_of(amino_acids@), amino_acid@) is None,
        },
{
    match match_amino_acid(amino_acids, amino_acid) {
        None => Err(not_found()),
        Some(a) => Ok((STATUS_OK, AminoAcidShortNameResponse::from_amino_acid(&a))),
    }
}

/// The name and abbreviation of the amino acid named by `amino_acid`, or not found.
pub fn get_amino_acid_abbreviation(amino_acids: &Vec<AminoAcid>, amino_acid: &str) -> (r: Result<
    (u16, AminoAcidAbbreviationResponse),
    (u16, ErrorResponse),
>)
    ensures
        match r {
            Ok((code, body)) => lookup(records_of(amino_acids@), amino_acid@) matches Some(a)
                && code == STATUS_OK && body.name@ == a.name && body.abbreviation@ == a.abbreviation,
            Err(e) => is_not_found(e) && lookup(records_of(amino_acids@), amino_acid@) is None,
        },
{
    match match_amino_acid(amino_acids, amino_acid) {
        None => Err(not_found()),
        Some(a) => Ok((STATUS_OK, AminoAcidAbbreviationResponse::from_amino_acid(&a))),
    }
}

/// The name and side chain of the amino acid named by `amino_acid`, or not found.
pub fn get_amino_acid_side_chain(amino_acids: &Vec<AminoAcid>, amino_acid: &str) -> (r: Result<
    (u16, AminoAcidSideChainResponse),
    (u16, ErrorResponse),
>)
    ensures
        match r {
            Ok((code, body)) => lookup(records_of(amino_acids@), amino_acid@) matches Some(a)
                && code == STATUS_OK && body.name@ == a.name && body.side_chain@ == side_chain_name(
                a.side_chain,
            ),
            Err(e) => is_not_found(e) && lookup(records_of(amino_acids@), amino_acid@) is None,
        },
{
    match match_amino_acid(amino_acids, amino_acid) {
        None => Err(not_found()),
        Some(a) => Ok((STATUS_OK, AminoAcidSideChainResponse::from_amino_acid(&a))),
    }
}

/// The name and molecular weight of the amino acid named by `amino_acid`, or not found.
pub fn get_amino_acid_molecular_weight(
    amino_acids: &Vec<AminoAcid>,
    amino_acid: &str,
) -> (r: Result<(u16, AminoAcidMolecularWeightResponse), (u16, ErrorResponse)>)
    ensures
        match r {
            Ok((code, body)) => lookup(records_of(amino_acids@), amino_acid@) matches Some(a)
                && code == STATUS_OK && body.name@ == a.name && body.molecular_weight
                == a.molecular_weight,
            Err(e) => is_not_found(e) && lookup(records_of(amino_acids@), amino_acid@) is None,
        },
{
    match match_amino_acid(amino_acids, amino_acid) {
        None => Err(not_found()),
        Some(a) => Ok((STATUS_OK, AminoAcidMolecularWeightResponse::from_amino_acid(&a))),
    }
}

} // verus!
