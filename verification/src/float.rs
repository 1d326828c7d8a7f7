//! Classification of binary floating-point numbers, read from their bits.
//!
//! A number is given in its interchange format: the sign in the top bit,
//! the exponent below it, the fraction in the low bits. Everything here is
//! decided on the magnitude, the bits below the sign.

use crate::classify::{Classification, Classify};
use vstd::prelude::*;

verus! {

/// The classes of a floating-point number.
#[derive(Debug, Copy, Clone, PartialEq, Hash, Structural)]
pub enum FloatClassification {
    /// Both positive and negative zero.
    Zero,
    /// Any positive, normal number, from the smallest positive normal value
    /// up to, not including, positive infinity.
    Positive,
    /// Any negative, normal number, from the largest negative normal value
    /// down to, not including, negative infinity.
    Negative,
    /// Positive infinity.
    PositiveInfinity,
    /// Negative infinity.
    NegativeInfinity,
    /// Not a number, whatever its sign and payload.
    NaN,
    /// The numbers of reduced precision that fill the gap around zero.
    Subnormal,
}

/// The class of a number whose bits below the sign are `magnitude` and whose
/// sign bit is `negative`, in a format where `infinity` is the magnitude of
/// the infinities and `smallest_normal` that of the smallest normal number.
///
/// Not-a-number is told first, then zero: neither has a sign that counts.
pub open spec fn float_class(
    magnitude: int,
    negative: bool,
    infinity: int,
    smallest_normal: int,
) -> FloatClassification {
    if magnitude > infinity {
        FloatClassification::NaN
    } else if magnitude == 0 {
        FloatClassification::Zero
    } else if magnitude == infinity {
        if negative {
            FloatClassification::NegativeInfinity
        } else {
            FloatClassification::PositiveInfinity
        }
    } else if magnitude < smallest_normal {
        FloatClassification::Subnormal
    } else if negative {
        FloatClassification::Negative
    } else {
        FloatClassification::Positive
    }
}

/// The sign bit of a 32-bit number, as a value.
pub const SIGN_32: u32 = 0x8000_0000;

/// The magnitude of the 32-bit infinities: exponent all ones, fraction zero.
pub const INFINITY_32: u32 = 0x7f80_0000;

/// The magnitude of the smallest normal 32-bit number: exponent one.
pub const SMALLEST_NORMAL_32: u32 = 0x0080_0000;

/// The sign bit of a 64-bit number, as a value.
pub const SIGN_64: u64 = 0x8000_0000_0000_0000;

/// The magnitude of the 64-bit infinities: exponent all ones, fraction zero.
pub const INFINITY_64: u64 = 0x7ff0_0000_0000_0000;

/// The magnitude of the smallest normal 64-bit number: exponent one.
pub const SMALLEST_NORMAL_64: u64 = 0x0010_0000_0000_0000;

/// A 32-bit floating-point number, held as its bits.
#[derive(Debug, Copy, Clone, PartialEq, Eq, Hash, Structural)]
pub struct Binary32(pub u32);

/// A 64-bit floating-point number, held as its bits.
#[derive(Debug, Copy, Clone, PartialEq, Eq, Hash, Structural)]
pub struct Binary64(pub u64);

impl Binary32 {
    /// Whether the sign bit is set.
    pub open spec fn negative(&self) -> bool {
        self.0 >= SIGN_32
    }

    /// The bits below the sign.
    pub open spec fn magnitude(&self) -> int {
        if self.0 >= SIGN_32 {
            self.0 - SIGN_32
        } else {
            self.0 as int
        }
    }
}

impl Binary64 {
    /// Whether the sign bit is set.
    pub open spec fn negative(&self) -> bool {
        self.0 >= SIGN_64
    }

    /// The bits below the sign.
    pub open spec fn magnitude(&self) -> int {
        if self.0 >= SIGN_64 {
            self.0 - SIGN_64
        } else {
            self.0 as int
        }
    }
}

impl FloatClassification {
    /// The position of the class among the seven.
    pub open spec fn index(&self) -> u64 {
        match self {
            FloatClassification::Zero => 0,
            FloatClassification::Positive => 1,
            FloatClassification::Negative => 2,
            FloatClassification::PositiveInfinity => 3,
            FloatClassification::NegativeInfinity => 4,
            FloatClassification::NaN => 5,
            FloatClassification::Subnormal => 6,
        }
    }
}

impl Classification for FloatClassification {
    open spec fn encoding(&self) -> Seq<u64> {
        seq![self.index()]
    }

    fn encode(&self, out: &mut Vec<u64>) {
        let word: u64 = match self {
            FloatClassification::Zero => 0,
            FloatClassification::Positive => 1,
            FloatClassification::Negative => 2,
            FloatClassification::PositiveInfinity => 3,
            FloatClassification::NegativeInfinity => 4,
            FloatClassification::NaN => 5,
            FloatClassification::Subnormal => 6,
        };
        out.push(word);
    }

    proof fn lemma_prefix_free(&self, other: &Self) {
        assert(self.encoding()[0] == other.encoding()[0]);
    }
}

impl Classify for Binary32 {
    type Output = FloatClassification;

    open spec fn spec_classify(&self) -> FloatClassification {
        float_class(
            self.magnitude(),
            self.negative(),
            INFINITY_32 as int,
            SMALLEST_NORMAL_32 as int,
        )
    }

    fn classify(&self) -> FloatClassification {
        let negative: bool = self.0 >= SIGN_32;
        let magnitude: u32 = if negative {
            self.0 - SIGN_32
        } else {
            self.0
        };
        if magnitude > INFINITY_32 {
            FloatClassification::NaN
        } else if magnitude == 0 {
            FloatClassification::Zero
        } else if magnitude == INFINITY_32 {
            if negative {
                FloatClassification::NegativeInfinity
            } else {
                FloatClassification::PositiveInfinity
            }
        } else if magnitude < SMALLEST_NORMAL_32 {
            FloatClassification::Subnormal
        } else if negative {
            FloatClassification::Negative
        } else {
            FloatClassification::Positive
        }
    }
}

impl Classify for Binary64 {
    type Output = FloatClassification;

    open spec fn spec_classify(&self) -> FloatClassification {
        float_class(
            self.magnitude(),
            self.negative(),
            INFINITY_64 as int,
            SMALLEST_NORMAL_64 as int,
        )
    }

    fn classify(&self) -> FloatClassification {
        let negative: bool = self.0 >= SIGN_64;
        let magnitude: u64 = if negative {
            self.0 - SIGN_64
        } else {
            self.0
        };
        if magnitude > INFINITY_64 {
            FloatClassification::NaN
        } else if magnitude == 0 {
            FloatClassification::Zero
        } else if magnitude == INFINITY_64 {
            if negative {
                FloatClassification::NegativeInfinity
            } else {
                FloatClassification::PositiveInfinity
            }
        } else if magnitude < SMALLEST_NORMAL_64 {
            FloatClassification::Subnormal
        } else if negative {
            FloatClassification::Negative
        } else {
            FloatClassification::Positive
        }
    }
}

} // verus!
