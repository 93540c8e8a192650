use vstd::prelude::*;

use crate::side_chain::{parse_side_chain, side_chain_name, SideChain};
use crate::weight::{hundredths_text, MolecularWeight};

verus! {

/// An immutable amino acid record.
#[derive(Debug, PartialEq)]
pub struct AminoAcid {
    name: String,
    short_name: String,
    abbreviation: String,
    side_chain: SideChain,
    molecular_weight: MolecularWeight,
    codon: Vec<String>,
}

/// What an amino acid record holds, as mathematical values.
pub struct AminoAcidView {
    pub name: Seq<char>,
    pub short_name: Seq<char>,
    pub abbreviation: Seq<char>,
    pub side_chain: SideChain,
    pub molecular_weight: MolecularWeight,
    pub codon: Seq<Seq<char>>,
}

/// The views of a sequence of strings.
pub open spec fn texts_of(v: Seq<String>) -> Seq<Seq<char>> {
    v.map_values(|s: String| s@)
}

/// The parts joined in order, with `sep` between each two neighbours.
pub open spec fn join_with(parts: Seq<Seq<char>>, sep: Seq<char>) -> Seq<char>
    decreases parts.len(),
{
    if parts.len() == 0 {
        Seq::empty()
    } else if parts.len() == 1 {
        parts[0]
    } else {
        join_with(parts.drop_last(), sep) + sep + parts.last()
    }
}

/// The codons joined with a comma and a space, in their order.
pub open spec fn codon_text(codon: Seq<Seq<char>>) -> Seq<char> {
    join_with(codon, ", "@)
}

/// The one-line, tab-separated text of a record.
pub open spec fn record_text(a: AminoAcidView) -> Seq<char> {
    "Name: "@ + a.name + "\tShort Name: "@ + a.short_name + "\tAbbreviation: "@ + a.abbreviation
        + "\tSide Chain: "@ + side_chain_name(a.side_chain) + "\tMolecular Weight: "@
        + hundredths_text(a.molecular_weight.hundredths as nat) + "\tCodon: "@ + codon_text(
        a.codon,
    )
}

impl View for AminoAcid {
    type V = AminoAcidView;

    closed spec fn view(&self) -> AminoAcidView {
        AminoAcidView {
            name: self.name@,
            short_name: self.short_name@,
            abbreviation: self.abbreviation@,
            side_chain: self.side_chain,
            molecular_weight: self.molecular_weight,
            codon: texts_of(self.codon@),
        }
    }
}

fn copy_strings(v: &Vec<String>) -> (r: Vec<String>)
    ensures
        r@ == v@,
{
    let mut r: Vec<String> = Vec::new();
    let mut i: usize = 0;
    while i < v.len()
        invariant
            i <= v@.len(),
            r@ == v@.subrange(0, i as int),
        decreases v@.len() - i,
    {
        r.push(v[i].clone());
        i += 1;
        assert(r@ =~= v@.subrange(0, i as int));
    }
    assert(r@ =~= v@);
    r
}

fn join_strings(parts: &Vec<String>, sep: &str) -> (r: String)
    ensures
        r@ == join_with(texts_of(parts@), sep@),
{
    let ghost all = texts_of(parts@);
    let mut r = String::new();
    let mut i: usize = 0;
    while i < parts.len()
        invariant
            i <= parts@.len(),
            all == texts_of(parts@),
            r@ == join_with(all.subrange(0, i as int), sep@),
        decreases parts@.len() - i,
    {
        let ghost before = all.subrange(0, i as int);
        if i > 0 {
            r.append(sep);
        }
        r.append(parts[i].as_str());
        i += 1;
        proof {
            let now = all.subrange(0, i as int);
            assert(now.drop_last() =~= before);
            if i == 1 {
                assert(r@ =~= now[0]);
            }
        }
    }
    assert(all.subrange(0, i as int) =~= all);
    r
}

impl Clone for AminoAcid {
    fn clone(&self) -> (r: AminoAcid)
        ensures
            r@ == self@,
    {
        AminoAcid {
            name: self.name.clone(),
            short_name: self.short_name.clone(),
            abbreviation: self.abbreviation.clone(),
            side_chain: self.side_chain,
            molecular_weight: self.molecular_weight,
            codon: copy_strings(&self.codon),
        }
    }
}

impl AminoAcid {
    /// Builds a record; the side chain is given by its name, in any ASCII case.
    pub fn new(
        name: &str,
        short_name: &str,
        abbreviation: &str,
        side_chain: &str,
        molecular_weight: MolecularWeight,
        codon: &[&str],
    ) -> (r: AminoAcid)
        requires
            parse_side_chain(side_chain@) is Some,
        ensures
            r@.name == name@,
            r@.short_name == short_name@,
            r@.abbreviation == abbreviation@,
            Some(r@.side_chain) == parse_side_chain(side_chain@),
            r@.molecular_weight == molecular_weight,
            r@.codon.len() == codon@.len(),
            forall|i: int| 0 <= i < codon@.len() ==> #[trigger] r@.codon[i] == codon@[i]@,
    {
        let side = match SideChain::from_str(side_chain) {
            Ok(v) => v,
            Err(_) => SideChain::Nonpolar,
        };
        let mut codons: Vec<String> = Vec::new();
        let mut i: usize = 0;
        while i < codon.len()
            invariant
                i <= codon@.len(),
                codons@.len() == i,
                forall|j: int| 0 <= j < i ==> #[trigger] codons@[j]@ == codon@[j]@,
            decreases codon@.len() - i,
        {
            codons.push(String::from_str(codon[i]));
            i += 1;
        }
        AminoAcid {
            name: String::from_str(name),
            short_name: String::from_str(short_name),
            abbreviation: String::from_str(abbreviation),
            side_chain: side,
            molecular_weight,
            codon: codons,
        }
    }

    /// The full name.
    pub fn get_name(&self) -> (r: String)
        ensures
            r@ == self@.name,
    {
        self.name.clone()
    }

    /// The three-letter code.
    pub fn get_short_name(&self) -> (r: String)
        ensures
            r@ == self@.short_name,
    {
        self.short_name.clone()
    }

    /// The one-letter code.
    pub fn get_abbreviation(&self) -> (r: String)
        ensures
            r@ == self@.abbreviation,
    {
        self.abbreviation.clone()
    }

    /// The side chain classification.
    pub fn get_side_chain(&self) -> (r: SideChain)
        ensures
            r == self@.side_chain,
    {
        self.side_chain
    }

    /// The molecular weight.
    pub fn get_molecular_weight(&self) -> (r: MolecularWeight)
        ensures
            r == self@.molecular_weight,
    {
        self.molecular_weight
    }

    /// The codons, in their order.
    pub fn get_codon(&self) -> (r: Vec<String>)
        ensures
            texts_of(r@) == self@.codon,
    {
        copy_strings(&self.codon)
    }

    /// The codons joined with `", "`, in their order.
    pub fn get_codon_string(&self) -> (r: String)
        ensures
            r@ == codon_text(self@.codon),
    {
        join_strings(&self.codon, ", ")
    }

    /// The number of codons.
    pub fn get_codon_count(&self) -> (r: usize)
        ensures
            r == self@.codon.len(),
    {
        self.codon.len()
    }

    /// All fields on one line, separated by tabs, each after its label.
    pub fn to_string(&self) -> (r: String)
        ensures
            r@ == record_text(self@),
    {
        let mut s = String::from_str("Name: ");
        s.append(self.name.as_str());
        s.append("\tShort Name: ");
        s.append(self.short_name.as_str());
        s.append("\tAbbreviation: ");
        s.append(self.abbreviation.as_str());
        s.append("\tSide Chain: ");
        let side = self.side_chain.to_string();
        s.append(side.as_str());
        s.append("\tMolecular Weight: ");
        let weight = self.molecular_weight.to_string();
        s.append(weight.as_str());
        s.append("\tCodon: ");
        let codons = join_strings(&self.codon, ", ");
        s.append(codons.as_str());
        s
    }
}

} // verus!
