use vstd::prelude::*;

use crate::amino_acid::{texts_of, AminoAcid, AminoAcidView};

verus! {

/// What `str::to_lowercase` makes of a text.
pub uninterp spec fn lower_of(s: Seq<char>) -> Seq<char>;

/// Relies on `str::to_lowercase`: its result depends on the characters alone.
#[verifier::external_body]
fn lowercase(s: &str) -> (r: String)
    ensures
        r@ == lower_of(s@),
{
    s.to_lowercase()
}

/// The records that a vector of amino acids holds.
pub open spec fn records_of(v: Seq<AminoAcid>) -> Seq<AminoAcidView> {
    v.map_values(|a: AminoAcid| a@)
}

/// The lowercased names of the records, in order.
pub open spec fn folded_names(data: Seq<AminoAcidView>) -> Seq<Seq<char>> {
    data.map_values(|a: AminoAcidView| lower_of(a.name))
}

/// `i` is the first position that holds `key`.
pub open spec fn is_first_match(names: Seq<Seq<char>>, key: Seq<char>, i: int) -> bool {
    &&& 0 <= i < names.len()
    &&& names[i] == key
    &&& forall|j: int| 0 <= j < i ==> names[j] != key
}

/// The first record whose name equals `key` once both are lowercased, if any.
pub open spec fn lookup(data: Seq<AminoAcidView>, key: Seq<char>) -> Option<AminoAcidView> {
    let names = folded_names(data);
    let k = lower_of(key);
    if exists|i: int| is_first_match(names, k, i) {
        Some(data[choose|i: int| is_first_match(names, k, i)])
    } else {
        None
    }
}

/// No two records have names that are equal once lowercased.
pub open spec fn names_unique(data: Seq<AminoAcidView>) -> bool {
    forall|i: int, j: int|
        0 <= i < data.len() && 0 <= j < data.len() && i != j ==> lower_of(data[i].name)
            != lower_of(data[j].name)
}

/// The position of the first name equal to `key`, if any; names and key are compared
/// as given, so callers hand both over already lowercased.
pub fn first_match(names: &Vec<String>, key: &String) -> (r: Option<usize>)
    ensures
        r matches Some(i) ==> is_first_match(texts_of(names@), key@, i as int),
        r is None <==> forall|j: int| 0 <= j < names@.len() ==> names@[j]@ != key@,
{
    let mut i: usize = 0;
    while i < names.len()
        invariant
            i <= names@.len(),
            forall|j: int| 0 <= j < i ==> names@[j]@ != key@,
        decreases names@.len() - i,
    {
        if names[i] == *key {
            return Some(i);
        }
        i += 1;
    }
    None
}

proof fn lemma_first_match_unique(names: Seq<Seq<char>>, key: Seq<char>, i: int, j: int)
    requires
        is_first_match(names, key, i),
        is_first_match(names, key, j),
    ensures
        i == j,
{
}

/// The record whose name matches `amino_acid` once both are lowercased; the first such
/// record where several match.
pub fn match_amino_acid(amino_acids: &Vec<AminoAcid>, amino_acid: &str) -> (r: Option<AminoAcid>)
    ensures
        r matches Some(a) ==> lookup(records_of(amino_acids@), amino_acid@) == Some(a@),
        r is None ==> lookup(records_of(amino_acids@), amino_acid@) is None,
{
    let ghost data = records_of(amino_acids@);
    let mut names: Vec<String> = Vec::new();
    let mut i: usize = 0;
    while i < amino_acids.len()
        invariant
            i <= amino_acids@.len(),
            data == records_of(amino_acids@),
            texts_of(names@) =~= folded_names(data).subrange(0, i as int),
        decreases amino_acids@.len() - i,
    {
        let name = amino_acids[i].get_name();
        let folded = lowercase(name.as_str());
        assert(data[i as int] == amino_acids@[i as int]@);
        assert(folded_names(data)[i as int] == folded@);
        let ghost prev = names@;
        names.push(folded);
        proof {
            assert(texts_of(names@) =~= texts_of(prev).push(lower_of(name@)));
            assert(folded_names(data).subrange(0, i + 1) =~= folded_names(data).subrange(
                0,
                i as int,
            ).push(lower_of(name@)));
        }
        i += 1;
    }
    assert(texts_of(names@) =~= folded_names(data));
    let key = lowercase(amino_acid);
    match first_match(&names, &key) {
        Some(k) => {
            proof {
                let names_v = folded_names(data);
                assert(is_first_match(names_v, lower_of(amino_acid@), k as int));
                let c = choose|c: int| is_first_match(names_v, lower_of(amino_acid@), c);
                lemma_first_match_unique(names_v, lower_of(amino_acid@), k as int, c);
            }
            Some(amino_acids[k].clone())
        },
        None => {
            proof {
                let names_v = folded_names(data);
                assert forall|c: int| !is_first_match(names_v, lower_of(amino_acid@), c) by {
                    if 0 <= c < names_v.len() {
                        assert(texts_of(names@)[c] == names@[c]@);
                    }
                }
            }
            None
        },
    }
}

/// Where names are unique up to case, looking up a record's name, written in any case
/// that lowercases alike, gives exactly that record.
pub proof fn lemma_lookup_finds_record(data: Seq<AminoAcidView>, key: Seq<char>, i: int)
    requires
        names_unique(data),
        0 <= i < data.len(),
        lower_of(key) == lower_of(data[i].name),
    ensures
        lookup(data, key) == Some(data[i]),
{
    let names = folded_names(data);
    let k = lower_of(key);
    assert(is_first_match(names, k, i));
    let c = choose|c: int| is_first_match(names, k, c);
    lemma_first_match_unique(names, k, i, c);
}

/// A key whose lowercase form is no record's lowercased name finds nothing.
pub proof fn lemma_lookup_misses_unknown(data: Seq<AminoAcidView>, key: Seq<char>)
    requires
        forall|j: int| 0 <= j < data.len() ==> lower_of(data[j].name) != lower_of(key),
    ensures
        lookup(data, key) is None,
{
    let names = folded_names(data);
    let k = lower_of(key);
    assert forall|c: int| !is_first_match(names, k, c) by {
        if 0 <= c < names.len() {
            assert(names[c] == lower_of(data[c].name));
        }
    }
}

} // verus!
