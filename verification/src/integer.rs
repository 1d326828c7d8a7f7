//! Classification of the machine integers.

use crate::classify::{Classification, Classify};
use vstd::prelude::*;

verus! {

/// The classes of an integer: zero, the two bounds of its type, and the two
/// signs in between.
#[derive(Debug, Copy, Clone, PartialEq, Eq, PartialOrd, Ord, Hash, Structural)]
pub enum IntClassification {
    Zero,
    Positive,
    Negative,
    Max,
    Min,
}

/// The class of the integer `x` in a type that runs from `min` to `max`.
/// Zero comes first, then the bounds: an unsigned type has no `Min` and no
/// `Negative`, since its smallest value is zero.
pub open spec fn int_class(x: int, min: int, max: int) -> IntClassification {
    if x == 0 {
        IntClassification::Zero
    } else if x == max {
        IntClassification::Max
    } else if x == min {
        IntClassification::Min
    } else if x < 0 {
        IntClassification::Negative
    } else {
        IntClassification::Positive
    }
}

impl IntClassification {
    /// The position of the class among the five.
    pub open spec fn index(&self) -> u64 {
        match self {
            IntClassification::Zero => 0,
            IntClassification::Positive => 1,
            IntClassification::Negative => 2,
            IntClassification::Max => 3,
            IntClassification::Min => 4,
        }
    }
}

impl Classification for IntClassification {
    open spec fn encoding(&self) -> Seq<u64> {
        seq![self.index()]
    }

    fn encode(&self, out: &mut Vec<u64>) {
        let word: u64 = match self {
            IntClassification::Zero => 0,
            IntClassification::Positive => 1,
            IntClassification::Negative => 2,
            IntClassification::Max => 3,
            IntClassification::Min => 4,
        };
        out.push(word);
    }

    proof fn lemma_prefix_free(&self, other: &Self) {
        assert(self.encoding()[0] == other.encoding()[0]);
    }
}

impl Classify for u8 {
    type Output = IntClassification;

    open spec fn spec_classify(&self) -> IntClassification {
        int_class(*self as int, u8::MIN as int, u8::MAX as int)
    }

    fn classify(&self) -> IntClassification {
        let x: u8 = *self;
        if x == 0 {
            IntClassification::Zero
        } else if x == u8::MAX {
            IntClassification::Max
        } else {
            IntClassification::Positive
        }
    }
}

impl Classify for &u8 {
    type Output = IntClassification;

    open spec fn spec_classify(&self) -> IntClassification {
        (**self).spec_classify()
    }

    fn classify(&self) -> IntClassification {
        (**self).classify()
    }
}

impl Classify for u16 {
    type Output = IntClassification;

    open spec fn spec_classify(&self) -> IntClassification {
        int_class(*self as int, u16::MIN as int, u16::MAX as int)
    }

    fn classify(&self) -> IntClassification {
        let x: u16 = *self;
        if x == 0 {
            IntClassification::Zero
        } else if x == u16::MAX {
            IntClassification::Max
        } else {
            IntClassification::Positive
        }
    }
}

impl Classify for &u16 {
    type Output = IntClassification;

    open spec fn spec_classify(&self) -> IntClassification {
        (**self).spec_classify()
    }

    fn classify(&self) -> IntClassification {
        (**self).classify()
    }
}

impl Classify for u32 {
    type Output = IntClassification;

    open spec fn spec_classify(&self) -> IntClassification {
        int_class(*self as int, u32::MIN as int, u32::MAX as int)
    }

    fn classify(&self) -> IntClassification {
        let x: u32 = *self;
        if x == 0 {
            IntClassification::Zero
        } else if x == u32::MAX {
            IntClassification::Max
        } else {
            IntClassification::Positive
        }
    }
}

impl Classify for &u32 {
    type Output = IntClassification;

    open spec fn spec_classify(&self) -> IntClassification {
        (**self).spec_classify()
    }

    fn classify(&self) -> IntClassification {
        (**self).classify()
    }
}

impl Classify for u64 {
    type Output = IntClassification;

    open spec fn spec_classify(&self) -> IntClassification {
        int_class(*self as int, u64::MIN as int, u64::MAX as int)
    }

    fn classify(&self) -> IntClassification {
        let x: u64 = *self;
        if x == 0 {
            IntClassification::Zero
        } else if x == u64::MAX {
            IntClassification::Max
        } else {
            IntClassification::Positive
        }
    }
}

impl Classify for &u64 {
    type Output = IntClassification;

    open spec fn spec_classify(&self) -> IntClassification {
        (**self).spec_classify()
    }

    fn classify(&self) -> IntClassification {
        (**self).classify()
    }
}

impl Classify for usize {
    type Output = IntClassification;

    open spec fn spec_classify(&self) -> IntClassification {
        int_class(*self as int, usize::MIN as int, usize::MAX as int)
    }

    fn classify(&self) -> IntClassification {
        let x: usize = *self;
        if x == 0 {
            IntClassification::Zero
        } else if x == usize::MAX {
            IntClassification::Max
        } else {
            IntClassification::Positive
        }
    }
}

impl Classify for &usize {
    type Output = IntClassification;

    open spec fn spec_classify(&self) -> IntClassification {
        (**self).spec_classify()
    }

    fn classify(&self) -> IntClassification {
        (**self).classify()
    }
}

impl Classify for i8 {
    type Output = IntClassification;

    open spec fn spec_classify(&self) -> IntClassification {
        int_class(*self as int, i8::MIN as int, i8::MAX as int)
    }

    fn classify(&self) -> IntClassification {
        let x: i8 = *self;
        if x == 0 {
            IntClassification::Zero
        } else if x == i8::MAX {
            IntClassification::Max
        } else if x == i8::MIN {
            IntClassification::Min
        } else if x < 0 {
            IntClassification::Negative
        } else {
            IntClassification::Positive
        }
    }
}

impl Classify for &i8 {
    type Output = IntClassification;

    open spec fn spec_classify(&self) -> IntClassification {
        (**self).spec_classify()
    }

    fn classify(&self) -> IntClassification {
        (**self).classify()
    }
}

impl Classify for i16 {
    type Output = IntClassification;

    open spec fn spec_classify(&self) -> IntClassification {
        int_class(*self as int, i16::MIN as int, i16::MAX as int)
    }

    fn classify(&self) -> IntClassification {
        let x: i16 = *self;
        if x == 0 {
            IntClassification::Zero
        } else if x == i16::MAX {
            IntClassification::Max
        } else if x == i16::MIN {
            IntClassification::Min
        } else if x < 0 {
            IntClassification::Negative
        } else {
            IntClassification::Positive
        }
    }
}

impl Classify for &i16 {
    type Output = IntClassification;

    open spec fn spec_classify(&self) -> IntClassification {
        (**self).spec_classify()
    }

    fn classify(&self) -> IntClassification {
        (**self).classify()
    }
}

impl Classify for i32 {
    type Output = IntClassification;

    open spec fn spec_classify(&self) -> IntClassification {
        int_class(*self as int, i32::MIN as int, i32::MAX as int)
    }

    fn classify(&self) -> IntClassification {
        let x: i32 = *self;
        if x == 0 {
            IntClassification::Zero
        } else if x == i32::MAX {
            IntClassification::Max
        } else if x == i32::MIN {
            IntClassification::Min
        } else if x < 0 {
            IntClassification::Negative
        } else {
            IntClassification::Positive
        }
    }
}

impl Classify for &i32 {
    type Output = IntClassification;

    open spec fn spec_classify(&self) -> IntClassification {
        (**self).spec_classify()
    }

    fn classify(&self) -> IntClassification {
        (**self).classify()
    }
}

impl Classify for i64 {
    type Output = IntClassification;

    open spec fn spec_classify(&self) -> IntClassification {
        int_class(*self as int, i64::MIN as int, i64::MAX as int)
    }

    fn classify(&self) -> IntClassification {
        let x: i64 = *self;
        if x == 0 {
            IntClassification::Zero
        } else if x == i64::MAX {
            IntClassification::Max
        } else if x == i64::MIN {
            IntClassification::Min
        } else if x < 0 {
            IntClassification::Negative
        } else {
            IntClassification::Positive
        }
    }
}

impl Classify for &i64 {
    type Output = IntClassification;

    open spec fn spec_classify(&self) -> IntClassification {
        (**self).spec_classify()
    }

    fn classify(&self) -> IntClassification {
        (**self).classify()
    }
}

impl Classify for isize {
    type Output = IntClassification;

    open spec fn spec_classify(&self) -> IntClassification {
        int_class(*self as int, isize::MIN as int, isize::MAX as int)
    }

    fn classify(&self) -> IntClassification {
        let x: isize = *self;
        if x == 0 {
            IntClassification::Zero
        } else if x == isize::MAX {
            IntClassification::Max
        } else if x == isize::MIN {
            IntClassification::Min
        } else if x < 0 {
            IntClassification::Negative
        } else {
            IntClassification::Positive
        }
    }
}

impl Classify for &isize {
    type Output = IntClassification;

    open spec fn spec_classify(&self) -> IntClassification {
        (**self).spec_classify()
    }

    fn classify(&self) -> IntClassification {
        (**self).classify()
    }
}

} // verus!
