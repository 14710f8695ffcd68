//! The integer types an ordinal can wrap, each seen through its mathematical
//! value.

use vstd::prelude::*;
use crate::suffix::magnitude_of;

verus! {

/// An integer type whose values can be formatted as ordinals.
pub trait IntegerValue: Sized + Copy {
    /// The mathematical value.
    spec fn int_value(&self) -> int;

    /// The sign and the magnitude of the value.
    fn sign_magnitude(&self) -> (r: (bool, u128))
        ensures
            r.0 <==> self.int_value() < 0,
            r.1 as int == magnitude_of(self.int_value()),
    ;
}

impl IntegerValue for u8 {
    open spec fn int_value(&self) -> int {
        *self as int
    }

    fn sign_magnitude(&self) -> (r: (bool, u128)) {
        (false, *self as u128)
    }
}

impl IntegerValue for u16 {
    open spec fn int_value(&self) -> int {
        *self as int
    }

    fn sign_magnitude(&self) -> (r: (bool, u128)) {
        (false, *self as u128)
    }
}

impl IntegerValue for u32 {
    open spec fn int_value(&self) -> int {
        *self as int
    }

    fn sign_magnitude(&self) -> (r: (bool, u128)) {
        (false, *self as u128)
    }
}

impl IntegerValue for u64 {
    open spec fn int_value(&self) -> int {
        *self as int
    }

    fn sign_magnitude(&self) -> (r: (bool, u128)) {
        (false, *self as u128)
    }
}

impl IntegerValue for u128 {
    open spec fn int_value(&self) -> int {
        *self as int
    }

    fn sign_magnitude(&self) -> (r: (bool, u128)) {
        (false, *self as u128)
    }
}

impl IntegerValue for usize {
    open spec fn int_value(&self) -> int {
        *self as int
    }

    fn sign_magnitude(&self) -> (r: (bool, u128)) {
        (false, *self as u128)
    }
}

impl IntegerValue for i8 {
    open spec fn int_value(&self) -> int {
        *self as int
    }

    fn sign_magnitude(&self) -> (r: (bool, u128)) {
        if *self < 0 {
            (true, (-(*self as i128)) as u128)
        } else {
            (false, *self as u128)
        }
    }
}

impl IntegerValue for i16 {
    open spec fn int_value(&self) -> int {
        *self as int
    }

    fn sign_magnitude(&self) -> (r: (bool, u128)) {
        if *self < 0 {
            (true, (-(*self as i128)) as u128)
        } else {
            (false, *self as u128)
        }
    }
}

impl IntegerValue for i32 {
    open spec fn int_value(&self) -> int {
        *self as int
    }

    fn sign_magnitude(&self) -> (r: (bool, u128)) {
        if *self < 0 {
            (true, (-(*self as i128)) as u128)
        } else {
            (false, *self as u128)
        }
    }
}

impl IntegerValue for i64 {
    open spec fn int_value(&self) -> int {
        *self as int
    }

    fn sign_magnitude(&self) -> (r: (bool, u128)) {
        if *self < 0 {
            (true, (-(*self as i128)) as u128)
        } else {
            (false, *self as u128)
        }
    }
}

impl IntegerValue for isize {
    open spec fn int_value(&self) -> int {
        *self as int
    }

    fn sign_magnitude(&self) -> (r: (bool, u128)) {
        if *self < 0 {
            (true, (-(*self as i128)) as u128)
        } else {
            (false, *self as u128)
        }
    }
}

impl IntegerValue for i128 {
    open spec fn int_value(&self) -> int {
        *self as int
    }

    fn sign_magnitude(&self) -> (r: (bool, u128)) {
        if *self < 0 {
            (true, (-(*self + 1)) as u128 + 1)
        } else {
            (false, *self as u128)
        }
    }
}

} // verus!
