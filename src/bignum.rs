use vstd::prelude::*;

verus! {

/// The number that base 2^32 digits stand for, least significant first.
pub open spec fn magnitude(ds: Seq<u32>) -> nat
    decreases ds.len(),
{
    if ds.len() == 0 {
        0
    } else {
        ds[0] as nat + 4294967296 * magnitude(ds.drop_first())
    }
}

pub open spec fn digit_char(d: nat) -> char {
    if d == 0 {
        '0'
    } else if d == 1 {
        '1'
    } else if d == 2 {
        '2'
    } else if d == 3 {
        '3'
    } else if d == 4 {
        '4'
    } else if d == 5 {
        '5'
    } else if d == 6 {
        '6'
    } else if d == 7 {
        '7'
    } else if d == 8 {
        '8'
    } else {
        '9'
    }
}

/// `n` in decimal, without leading zeros.
pub open spec fn decimal(n: nat) -> Seq<char>
    decreases n,
{
    if n < 10 {
        seq![digit_char(n)]
    } else {
        decimal(n / 10) + seq![digit_char(n % 10)]
    }
}

/// `i` in decimal, with a leading `-` when it is negative.
pub open spec fn signed_decimal(i: int) -> Seq<char> {
    if i < 0 {
        seq!['-'] + decimal((-i) as nat)
    } else {
        decimal(i as nat)
    }
}

/// An integer of any size: its sign, and its magnitude as base 2^32 digits, least
/// significant first.
pub struct BigNum {
    pub negative: bool,
    pub digits: Vec<u32>,
}

impl BigNum {
    /// Zero has no digits and no sign, and no other number has a high zero digit.
    pub open spec fn wf(&self) -> bool {
        &&& (self.digits@.len() == 0 ==> !self.negative)
        &&& (self.digits@.len() > 0 ==> self.digits@.last() != 0)
    }

    pub open spec fn value(&self) -> int {
        if self.negative {
            -magnitude(self.digits@)
        } else {
            magnitude(self.digits@) as int
        }
    }

    pub fn from_i64(i: i64) -> (r: BigNum)
        ensures
            r.wf(),
            r.value() == i,
    {
        let m: u64 = if i < 0 {
            (-(i as i128)) as u64
        } else {
            i as u64
        };
        let lo = (m % 4294967296) as u32;
        let hi = (m / 4294967296) as u32;
        let mut digits: Vec<u32> = Vec::new();
        if m != 0 {
            digits.push(lo);
            if hi != 0 {
                digits.push(hi);
            }
        }
        proof {
            assert(m as int == lo as int + 4294967296 * hi as int);
            assert(magnitude(Seq::<u32>::empty()) == 0);
            assert(seq![hi].drop_first() =~= Seq::<u32>::empty());
            assert(magnitude(seq![hi]) == hi as nat);
            if m != 0 && hi != 0 {
                assert(digits@.drop_first() =~= seq![hi]);
                assert(magnitude(digits@) == lo as nat + 4294967296 * (hi as nat));
            } else if m != 0 {
                assert(digits@.drop_first() =~= Seq::<u32>::empty());
                assert(magnitude(digits@) == lo as nat);
            }
        }
        BigNum { negative: i < 0, digits }
    }

    /// The number in decimal, with a leading `-` when it is negative.
    pub fn to_decimal(&self) -> (r: String)
        ensures
            r@ == signed_decimal(self.value()),
    {
        decimal_text(self.negative, &self.digits)
    }
}

/// Relies on num's `BigInt::from_slice`, which reads a sign and base 2^32 digits
/// least significant first (a zero magnitude makes zero whatever the sign), and on
/// its `Display`, which writes the integer in decimal, with `-` before a negative
/// one.
#[verifier::external_body]
fn decimal_text(negative: bool, digits: &Vec<u32>) -> (r: String)
    ensures
        r@ == signed_decimal(
            if negative {
                -magnitude(digits@)
            } else {
                magnitude(digits@) as int
            },
        ),
{
    let sign = if negative {
        num::bigint::Sign::Minus
    } else {
        num::bigint::Sign::Plus
    };
    num::BigInt::from_slice(sign, digits).to_string()
}

} // verus!
