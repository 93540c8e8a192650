use vstd::prelude::*;

verus! {

/// The closed classification of an amino acid's side chain.
#[derive(Debug, Clone, Copy, PartialEq, Eq, Structural)]
pub enum SideChain {
    Nonpolar,
    Polar,
    Acidic,
    Basic,
    Positive,
}

/// The error of parsing a side chain from text that names none of the variants.
#[derive(Debug, Clone, Copy, PartialEq, Eq, Structural)]
pub enum ParseSideChainError {
    InvalidEnum,
}

/// The code of a character after ASCII upper case letters are mapped to lower case.
pub open spec fn ascii_fold(c: char) -> u32 {
    if 'A' <= c && c <= 'Z' {
        (c as u32 + 32) as u32
    } else {
        c as u32
    }
}

/// Two texts are equal when ASCII letters are compared without regard to case.
pub open spec fn ascii_eq_ignore_case(a: Seq<char>, b: Seq<char>) -> bool {
    &&& a.len() == b.len()
    &&& forall|i: int| 0 <= i < a.len() ==> #[trigger] ascii_fold(a[i]) == ascii_fold(b[i])
}

/// The canonical text of each side chain.
pub open spec fn side_chain_name(s: SideChain) -> Seq<char> {
    match s {
        SideChain::Nonpolar => "Nonpolar"@,
        SideChain::Polar => "Polar"@,
        SideChain::Acidic => "Acidic"@,
        SideChain::Basic => "Basic"@,
        SideChain::Positive => "Positive"@,
    }
}

/// The side chain that a text names, ignoring ASCII case, if any.
pub open spec fn parse_side_chain(s: Seq<char>) -> Option<SideChain> {
    if ascii_eq_ignore_case(s, "Nonpolar"@) {
        Some(SideChain::Nonpolar)
    } else if ascii_eq_ignore_case(s, "Polar"@) {
        Some(SideChain::Polar)
    } else if ascii_eq_ignore_case(s, "Acidic"@) {
        Some(SideChain::Acidic)
    } else if ascii_eq_ignore_case(s, "Basic"@) {
        Some(SideChain::Basic)
    } else if ascii_eq_ignore_case(s, "Positive"@) {
        Some(SideChain::Positive)
    } else {
        None
    }
}

fn fold_char(c: char) -> (r: u32)
    ensures
        r == ascii_fold(c),
{
    if 'A' <= c && c <= 'Z' {
        c as u32 + 32
    } else {
        c as u32
    }
}

/// Compares two texts, ASCII letters without regard to case.
pub fn eq_ignore_ascii_case(a: &str, b: &str) -> (r: bool)
    ensures
        r == ascii_eq_ignore_case(a@, b@),
{
    let n = a.unicode_len();
    if n != b.unicode_len() {
        return false;
    }
    let mut i: usize = 0;
    while i < n
        invariant
            n == a@.len(),
            n == b@.len(),
            i <= n,
            forall|j: int| 0 <= j < i ==> #[trigger] ascii_fold(a@[j]) == ascii_fold(b@[j]),
        decreases n - i,
    {
        if fold_char(a.get_char(i)) != fold_char(b.get_char(i)) {
            return false;
        }
        i += 1;
    }
    true
}

impl SideChain {
    /// Parses a side chain from its name, ignoring ASCII case.
    pub fn from_str(s: &str) -> (r: Result<SideChain, ParseSideChainError>)
        ensures
            parse_side_chain(s@) matches Some(v) ==> r == Ok::<SideChain, ParseSideChainError>(v),
            parse_side_chain(s@) is None ==> r == Err::<SideChain, ParseSideChainError>(
                ParseSideChainError::InvalidEnum,
            ),
    {
        if eq_ignore_ascii_case(s, "Nonpolar") {
            Ok(SideChain::Nonpolar)
        } else if eq_ignore_ascii_case(s, "Polar") {
            Ok(SideChain::Polar)
        } else if eq_ignore_ascii_case(s, "Acidic") {
            Ok(SideChain::Acidic)
        } else if eq_ignore_ascii_case(s, "Basic") {
            Ok(SideChain::Basic)
        } else if eq_ignore_ascii_case(s, "Positive") {
            Ok(SideChain::Positive)
        } else {
            Err(ParseSideChainError::InvalidEnum)
        }
    }

    /// The canonical name of the side chain.
    pub fn to_string(&self) -> (r: String)
        ensures
            r@ == side_chain_name(*self),
    {
        match self {
            SideChain::Nonpolar => String::from_str("Nonpolar"),
            SideChain::Polar => String::from_str("Polar"),
            SideChain::Acidic => String::from_str("Acidic"),
            SideChain::Basic => String::from_str("Basic"),
            SideChain::Positive => String::from_str("Positive"),
        }
    }
}

/// Parsing the name of a side chain gives that side chain back.
pub proof fn lemma_side_chain_round_trip(s: SideChain)
    ensures
        parse_side_chain(side_chain_name(s)) == Some(s),
{
    reveal_strlit("Nonpolar");
    reveal_strlit("Polar");
    reveal_strlit("Acidic");
    reveal_strlit("Basic");
    reveal_strlit("Positive");
    let n = side_chain_name(s);
    if s != SideChain::Nonpolar {
        assert(ascii_fold(n[0]) != ascii_fold("Nonpolar"@[0]) || n.len() != 8);
    }
    if s != SideChain::Polar {
        assert(ascii_fold(n[0]) != ascii_fold("Polar"@[0]) || n.len() != 5);
    }
    if s != SideChain::Acidic {
        assert(ascii_fold(n[0]) != ascii_fold("Acidic"@[0]) || n.len() != 6);
    }
    if s != SideChain::Basic {
        assert(ascii_fold(n[0]) != ascii_fold("Basic"@[0]) || n.len() != 5);
    }
}

/// Parsing ignores ASCII case: texts equal up to ASCII case parse alike.
pub proof fn lemma_parse_ignores_case(a: Seq<char>, b: Seq<char>)
    requires
        ascii_eq_ignore_case(a, b),
    ensures
        parse_side_chain(a) == parse_side_chain(b),
{
    assert forall|t: Seq<char>| ascii_eq_ignore_case(a, t) == ascii_eq_ignore_case(b, t) by {
        if ascii_eq_ignore_case(a, t) {
            assert forall|i: int| 0 <= i < b.len() implies #[trigger] ascii_fold(b[i])
                == ascii_fold(t[i]) by {
                assert(ascii_fold(a[i]) == ascii_fold(b[i]));
            }
        }
        if ascii_eq_ignore_case(b, t) {
            assert forall|i: int| 0 <= i < a.len() implies #[trigger] ascii_fold(a[i])
                == ascii_fold(t[i]) by {
                assert(ascii_fold(a[i]) == ascii_fold(b[i]));
            }
        }
    }
}

} // verus!
