use vstd::prelude::*;

verus! {

/// A molecular weight in daltons, held exactly as a whole number of hundredths.
#[derive(Debug, Clone, Copy, PartialEq, Eq, Structural)]
pub struct MolecularWeight {
    pub hundredths: u64,
}

/// The character of a decimal digit.
pub open spec fn digit_char(d: nat) -> char {
    if d == 0 {
        '0'
    } else if d == 1 {
        '1'
    } else if d == 2 {
        '2'
    } else if d == 3 {
        '3'
    } else if d == 4 {
        '4'
    } else if d == 5 {
        '5'
    } else if d == 6 {
        '6'
    } else if d == 7 {
        '7'
    } else if d == 8 {
        '8'
    } else {
        '9'
    }
}

/// The decimal digits of a natural number, most significant first, without leading zeros.
pub open spec fn decimal_text(n: nat) -> Seq<char>
    decreases n,
{
    if n < 10 {
        seq![digit_char(n)]
    } else {
        decimal_text(n / 10).push(digit_char(n % 10))
    }
}

/// The shortest decimal text of a number of hundredths: the whole part, then a point and
/// the fraction only where the fraction is not zero, without trailing zeros.
pub open spec fn hundredths_text(h: nat) -> Seq<char> {
    let whole = decimal_text(h / 100);
    let tenths = (h % 100) / 10;
    let last = h % 10;
    if h % 100 == 0 {
        whole
    } else if last == 0 {
        whole + seq!['.', digit_char(tenths)]
    } else {
        whole + seq!['.', digit_char(tenths), digit_char(last)]
    }
}

fn push_digit(s: &mut String, d: u64)
    requires
        d < 10,
    ensures
        final(s)@ == old(s)@.push(digit_char(d as nat)),
{
    let t = if d == 0 {
        "0"
    } else if d == 1 {
        "1"
    } else if d == 2 {
        "2"
    } else if d == 3 {
        "3"
    } else if d == 4 {
        "4"
    } else if d == 5 {
        "5"
    } else if d == 6 {
        "6"
    } else if d == 7 {
        "7"
    } else if d == 8 {
        "8"
    } else {
        "9"
    };
    proof {
        reveal_strlit("0");
        reveal_strlit("1");
        reveal_strlit("2");
        reveal_strlit("3");
        reveal_strlit("4");
        reveal_strlit("5");
        reveal_strlit("6");
        reveal_strlit("7");
        reveal_strlit("8");
        reveal_strlit("9");
    }
    s.append(t);
    assert(final(s)@ =~= old(s)@.push(digit_char(d as nat)));
}

fn push_decimal(s: &mut String, n: u64)
    ensures
        final(s)@ == old(s)@ + decimal_text(n as nat),
    decreases n,
{
    if n >= 10 {
        push_decimal(s, n / 10);
    }
    push_digit(s, n % 10);
    assert(final(s)@ =~= old(s)@ + decimal_text(n as nat));
}

impl MolecularWeight {
    /// A weight of the given number of hundredths of a dalton.
    pub fn new(hundredths: u64) -> (r: MolecularWeight)
        ensures
            r.hundredths == hundredths,
    {
        MolecularWeight { hundredths }
    }

    /// The weight's decimal text, as short as the value allows (`89.09`, `174.2`, `75`).
    pub fn to_string(&self) -> (r: String)
        ensures
            r@ == hundredths_text(self.hundredths as nat),
    {
        let h = self.hundredths;
        let mut s = String::new();
        push_decimal(&mut s, h / 100);
        let frac = h % 100;
        if frac != 0 {
            s.append(".");
            proof {
                reveal_strlit(".");
            }
            push_digit(&mut s, frac / 10);
            if h % 10 != 0 {
                push_digit(&mut s, h % 10);
            }
        }
        assert(s@ =~= hundredths_text(h as nat));
        s
    }
}

} // verus!
