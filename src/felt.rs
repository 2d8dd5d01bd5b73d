use vstd::prelude::*;

verus! {

/// `2^128`, the weight of the high half.
pub open spec fn half() -> int {
    u128::MAX as int + 1
}

/// The high half of the field modulus; its low half is 1.
pub const MODULUS_HIGH: u128 = 0x800_0000_0000_0011_0000_0000_0000_0000;

/// A field element, held as two 128-bit halves (`high * 2^128 + low`).
#[derive(Clone, Copy, Debug, PartialEq, Eq, Structural, Hash)]
pub struct Felt {
    pub high: u128,
    pub low: u128,
}

/// The field modulus `2^251 + 17 * 2^192 + 1`.
pub open spec fn felt_modulus() -> int {
    MODULUS_HIGH as int * half() + 1
}

impl Felt {
    /// The integer this element stands for.
    pub open spec fn value(self) -> int {
        self.high as int * half() + self.low as int
    }

    /// A field element is canonical when its integer lies below the modulus.
    pub open spec fn is_canonical(self) -> bool {
        self.value() < felt_modulus()
    }

    pub open spec fn zero_spec() -> Felt {
        Felt { high: 0, low: 0 }
    }

    /// The zero element; also the placeholder hash of the genesis block.
    pub fn zero() -> (r: Felt)
        ensures
            r == Felt::zero_spec(),
            r.value() == 0,
    {
        Felt { high: 0, low: 0 }
    }

    pub fn from_u128(v: u128) -> (r: Felt)
        ensures
            r.value() == v as int,
            r.high == 0 && r.low == v,
            r.is_canonical(),
    {
        Felt { high: 0, low: v }
    }

    /// The element `high * 2^128 + low`, where that integer lies below the
    /// modulus.
    pub fn from_parts(high: u128, low: u128) -> (r: Option<Felt>)
        ensures
            match r {
                Some(f) => f.high == high && f.low == low && f.is_canonical(),
                None => !(Felt { high, low }).is_canonical(),
            },
    {
        let f = Felt { high, low };
        proof {
            let h = high as int;
            let l = low as int;
            let m = MODULUS_HIGH as int;
            if h < m {
                assert(h * half() + l < m * half() + 1) by (nonlinear_arith)
                    requires
                        h + 1 <= m,
                        0 <= l < half(),
                        half() > 0,
                ;
            } else if h > m {
                assert(h * half() + l >= m * half() + 1) by (nonlinear_arith)
                    requires
                        h >= m + 1,
                        0 <= l,
                        half() > 1,
                ;
            }
        }
        if high < MODULUS_HIGH || (high == MODULUS_HIGH && low == 0) {
            Some(f)
        } else {
            None
        }
    }
}

} // verus!
