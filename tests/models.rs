use amino_api::amino_acid::AminoAcid;
use amino_api::side_chain::{ParseSideChainError, SideChain};
use amino_api::weight::MolecularWeight;

#[test]
fn test_get_name() {
    let amino_acid = AminoAcid::new(
        "Alanine",
        "Ala",
        "A",
        "Nonpolar",
        MolecularWeight::new(8909),
        &["GCU", "GCC", "GCA", "GCG"],
    );
    assert_eq!(amino_acid.get_name(), "Alanine");
}

#[test]
fn test_get_short_name() {
    let amino_acid = AminoAcid::new(
        "Alanine",
        "Ala",
        "A",
        "Nonpolar",
        MolecularWeight::new(8909),
        &["GCU", "GCC", "GCA", "GCG"],
    );
    assert_eq!(amino_acid.get_short_name(), "Ala");
}

#[test]
fn test_get_abbreviation() {
    let amino_acid = AminoAcid::new(
        "Alanine",
        "Ala",
        "A",
        "Nonpolar",
        MolecularWeight::new(8909),
        &["GCU", "GCC", "GCA", "GCG"],
    );
    assert_eq!(amino_acid.get_abbreviation(), "A");
}

#[test]
fn test_get_side_chain() {
    let amino_acid = AminoAcid::new(
        "Alanine",
        "Ala",
        "A",
        "Nonpolar",
        MolecularWeight::new(8909),
        &["GCU", "GCC", "GCA", "GCG"],
    );
    assert_eq!(amino_acid.get_side_chain(), SideChain::Nonpolar);
}

#[test]
fn test_get_molecular_weight() {
    let amino_acid = AminoAcid::new(
        "Alanine",
        "Ala",
        "A",
        "Nonpolar",
        MolecularWeight::new(8909),
        &["GCU", "GCC", "GCA", "GCG"],
    );
    assert_eq!(amino_acid.get_molecular_weight(), MolecularWeight::new(8909));
    assert_eq!(amino_acid.get_molecular_weight().to_string(), "89.09");
}

#[test]
fn test_get_codon() {
    let amino_acid = AminoAcid::new(
        "Alanine",
        "Ala",
        "A",
        "Nonpolar",
        MolecularWeight::new(8909),
        &["GCT", "GCC", "GCA", "GCG"],
    );
    assert_eq!(amino_acid.get_codon(), vec!["GCT", "GCC", "GCA", "GCG"]);
}

#[test]
fn test_get_codon_string() {
    let amino_acid = AminoAcid::new(
        "Alanine",
        "Ala",
        "A",
        "Nonpolar",
        MolecularWeight::new(8909),
        &["GCT", "GCC", "GCA", "GCG"],
    );
    assert_eq!(amino_acid.get_codon_string(), "GCT, GCC, GCA, GCG");
}

#[test]
fn test_get_codon_count() {
    let amino_acid = AminoAcid::new(
        "Alanine",
        "Ala",
        "A",
        "Nonpolar",
        MolecularWeight::new(8909),
        &["GCT", "GCC", "GCA", "GCG"],
    );
    assert_eq!(amino_acid.get_codon_count(), 4);
}

#[test]
fn test_fmt() {
    let amino_acid = AminoAcid::new(
        "Alanine",
        "Ala",
        "A",
        "Nonpolar",
        MolecularWeight::new(8909),
        &["GCT", "GCC", "GCA", "GCG"],
    );
    assert_eq!(
        amino_acid.to_string(),
        "Name: Alanine\tShort Name: Ala\tAbbreviation: A\tSide Chain: Nonpolar\tMolecular Weight: 89.09\tCodon: GCT, GCC, GCA, GCG"
    );
}

#[test]
fn codon_string_of_no_codons_is_empty() {
    let a = AminoAcid::new("Selenocysteine", "Sec", "U", "polar", MolecularWeight::new(16806), &[]);
    assert_eq!(a.get_codon_string(), "");
    assert_eq!(a.get_codon_count(), 0);
    assert!(a.get_codon().is_empty());
}

#[test]
fn codon_string_of_one_codon_has_no_separator() {
    let a = AminoAcid::new("Methionine", "Met", "M", "NONPOLAR", MolecularWeight::new(14921), &["ATG"]);
    assert_eq!(a.get_codon_string(), "ATG");
    assert_eq!(a.get_codon_count(), 1);
}

#[test]
fn new_parses_side_chain_in_any_case() {
    let a = AminoAcid::new("Lysine", "Lys", "K", "pOsItIvE", MolecularWeight::new(14619), &["AAA", "AAG"]);
    assert_eq!(a.get_side_chain(), SideChain::Positive);
}

#[test]
fn side_chain_round_trips() {
    let all = [
        SideChain::Nonpolar,
        SideChain::Polar,
        SideChain::Acidic,
        SideChain::Basic,
        SideChain::Positive,
    ];
    for s in all {
        assert_eq!(SideChain::from_str(&s.to_string()), Ok(s));
        assert_eq!(SideChain::from_str(&s.to_string().to_uppercase()), Ok(s));
        assert_eq!(SideChain::from_str(&s.to_string().to_lowercase()), Ok(s));
    }
}

#[test]
fn side_chain_names() {
    assert_eq!(SideChain::Nonpolar.to_string(), "Nonpolar");
    assert_eq!(SideChain::Polar.to_string(), "Polar");
    assert_eq!(SideChain::Acidic.to_string(), "Acidic");
    assert_eq!(SideChain::Basic.to_string(), "Basic");
    assert_eq!(SideChain::Positive.to_string(), "Positive");
}

#[test]
fn side_chain_rejects_unknown_text() {
    assert_eq!(SideChain::from_str("hydrophobic"), Err(ParseSideChainError::InvalidEnum));
    assert_eq!(SideChain::from_str(""), Err(ParseSideChainError::InvalidEnum));
    assert_eq!(SideChain::from_str("Polar "), Err(ParseSideChainError::InvalidEnum));
    assert_eq!(SideChain::from_str("Pol"), Err(ParseSideChainError::InvalidEnum));
}

#[test]
fn weight_text_is_shortest_decimal() {
    assert_eq!(MolecularWeight::new(8909).to_string(), "89.09");
    assert_eq!(MolecularWeight::new(17420).to_string(), "174.2");
    assert_eq!(MolecularWeight::new(7500).to_string(), "75");
    assert_eq!(MolecularWeight::new(0).to_string(), "0");
    assert_eq!(MolecularWeight::new(5).to_string(), "0.05");
    assert_eq!(MolecularWeight::new(u64::MAX).to_string(), "184467440737095516.15");
}
