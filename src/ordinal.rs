//! The ordinal wrapper: formatting, extraction and checked narrowing.

use vstd::prelude::*;
use vstd::string::*;
use crate::decimal::{decimal_of, magnitude_decimal};
use crate::integer::IntegerValue;
use crate::suffix::{lemma_suffix_of_decimal, ordinal_suffix, suffix_of_decimal};

verus! {

/// An integer to be read as an ordinal number.
#[derive(Copy, Clone, Debug, Default, PartialEq, Eq, PartialOrd, Ord, Hash)]
pub struct Ordinal<T>(pub T);

/// The wrapped value does not fit the requested integer type.
#[derive(Copy, Clone, Debug, PartialEq, Eq)]
pub struct OutOfRange;

/// The ordinal text of `n`: its default decimal form followed by its suffix.
pub open spec fn ordinal_text(n: int) -> Seq<char> {
    decimal_of(n) + ordinal_suffix(n)
}

/// The value of a sign and a magnitude, as an `i128`, when it lies in `[min, max]`.
fn signed_within(negative: bool, magnitude: u128, min: i128, max: i128) -> (r: Option<i128>)
    requires
        min <= 0 <= max,
        negative ==> magnitude > 0,
    ensures
        ({
            let v = if negative { -(magnitude as int) } else { magnitude as int };
            r == if min <= v <= max { Some(v as i128) } else { None::<i128> }
        }),
{
    if !negative {
        if magnitude <= max as u128 {
            Some(magnitude as i128)
        } else {
            None
        }
    } else {
        // the largest magnitude of a negative value in range
        let bound: u128 = if min == 0 {
            0
        } else {
            (-(min + 1)) as u128 + 1
        };
        if magnitude <= bound {
            Some(-((magnitude - 1) as i128) - 1)
        } else {
            None
        }
    }
}

/// The magnitude, when the value is not negative and at most `max`.
fn unsigned_within(negative: bool, magnitude: u128, max: u128) -> (r: Option<u128>)
    ensures
        r == if !negative && magnitude <= max { Some(magnitude) } else { None::<u128> },
{
    if !negative && magnitude <= max {
        Some(magnitude)
    } else {
        None
    }
}

impl<T: IntegerValue> Ordinal<T> {
    /// The mathematical value of the wrapped integer.
    pub open spec fn value(&self) -> int {
        self.0.int_value()
    }

    /// The ordinal suffix: "st", "nd", "rd" or "th".
    pub fn suffix(&self) -> (r: &'static str)
        ensures
            r@ == ordinal_suffix(self.value()),
    {
        let (negative, magnitude) = self.0.sign_magnitude();
        let text = magnitude_decimal(negative, magnitude);
        proof {
            lemma_suffix_of_decimal(self.value());
        }
        suffix_of_decimal(text.as_str())
    }

    /// The value in default decimal form followed by its ordinal suffix.
    pub fn to_string(&self) -> (r: String)
        ensures
            r@ == ordinal_text(self.value()),
    {
        let (negative, magnitude) = self.0.sign_magnitude();
        let text = magnitude_decimal(negative, magnitude);
        proof {
            lemma_suffix_of_decimal(self.value());
        }
        let suffix = suffix_of_decimal(text.as_str());
        text.concat(suffix)
    }

    /// The wrapped integer.
    pub fn to_primitive(&self) -> (r: T)
        ensures
            r == self.0,
    {
        self.0
    }

    /// The value as a `u8`, or `OutOfRange` when it does not fit.
    pub fn to_u8(&self) -> (r: Result<u8, OutOfRange>)
        ensures
            r == (if u8::MIN <= self.value() <= u8::MAX {
                Ok(self.value() as u8)
            } else {
                Err(OutOfRange)
            }),
    {
        let (negative, magnitude) = self.0.sign_magnitude();
        match unsigned_within(negative, magnitude, u8::MAX as u128) {
            Some(v) => Ok(v as u8),
            None => Err(OutOfRange),
        }
    }

    /// The value as a `u16`, or `OutOfRange` when it does not fit.
    pub fn to_u16(&self) -> (r: Result<u16, OutOfRange>)
        ensures
            r == (if u16::MIN <= self.value() <= u16::MAX {
                Ok(self.value() as u16)
            } else {
                Err(OutOfRange)
            }),
    {
        let (negative, magnitude) = self.0.sign_magnitude();
        match unsigned_within(negative, magnitude, u16::MAX as u128) {
            Some(v) => Ok(v as u16),
            None => Err(OutOfRange),
        }
    }

    /// The value as a `u32`, or `OutOfRange` when it does not fit.
    pub fn to_u32(&self) -> (r: Result<u32, OutOfRange>)
        ensures
            r == (if u32::MIN <= self.value() <= u32::MAX {
                Ok(self.value() as u32)
            } else {
                Err(OutOfRange)
            }),
    {
        let (negative, magnitude) = self.0.sign_magnitude();
        match unsigned_within(negative, magnitude, u32::MAX as u128) {
            Some(v) => Ok(v as u32),
            None => Err(OutOfRange),
        }
    }

    /// The value as a `u64`, or `OutOfRange` when it does not fit.
    pub fn to_u64(&self) -> (r: Result<u64, OutOfRange>)
        ensures
            r == (if u64::MIN <= self.value() <= u64::MAX {
                Ok(self.value() as u64)
            } else {
                Err(OutOfRange)
            }),
    {
        let (negative, magnitude) = self.0.sign_magnitude();
        match unsigned_within(negative, magnitude, u64::MAX as u128) {
            Some(v) => Ok(v as u64),
            None => Err(OutOfRange),
        }
    }

    /// The value as a `u128`, or `OutOfRange` when it does not fit.
    pub fn to_u128(&self) -> (r: Result<u128, OutOfRange>)
        ensures
            r == (if u128::MIN <= self.value() <= u128::MAX {
                Ok(self.value() as u128)
            } else {
                Err(OutOfRange)
            }),
    {
        let (negative, magnitude) = self.0.sign_magnitude();
        match unsigned_within(negative, magnitude, u128::MAX as u128) {
            Some(v) => Ok(v as u128),
            None => Err(OutOfRange),
        }
    }

    /// The value as a `usize`, or `OutOfRange` when it does not fit.
    pub fn to_usize(&self) -> (r: Result<usize, OutOfRange>)
        ensures
            r == (if usize::MIN <= self.value() <= usize::MAX {
                Ok(self.value() as usize)
            } else {
                Err(OutOfRange)
            }),
    {
        let (negative, magnitude) = self.0.sign_magnitude();
        match unsigned_within(negative, magnitude, usize::MAX as u128) {
            Some(v) => Ok(v as usize),
            None => Err(OutOfRange),
        }
    }

    /// The value as an `i8`, or `OutOfRange` when it does not fit.
    pub fn to_i8(&self) -> (r: Result<i8, OutOfRange>)
        ensures
            r == (if i8::MIN <= self.value() <= i8::MAX {
                Ok(self.value() as i8)
            } else {
                Err(OutOfRange)
            }),
    {
        let (negative, magnitude) = self.0.sign_magnitude();
        match signed_within(negative, magnitude, i8::MIN as i128, i8::MAX as i128) {
            Some(v) => Ok(v as i8),
            None => Err(OutOfRange),
        }
    }

    /// The value as an `i16`, or `OutOfRange` when it does not fit.
    pub fn to_i16(&self) -> (r: Result<i16, OutOfRange>)
        ensures
            r == (if i16::MIN <= self.value() <= i16::MAX {
                Ok(self.value() as i16)
            } else {
                Err(OutOfRange)
            }),
    {
        let (negative, magnitude) = self.0.sign_magnitude();
        match signed_within(negative, magnitude, i16::MIN as i128, i16::MAX as i128) {
            Some(v) => Ok(v as i16),
            None => Err(OutOfRange),
        }
    }

    /// The value as an `i32`, or `OutOfRange` when it does not fit.
    pub fn to_i32(&self) -> (r: Result<i32, OutOfRange>)
        ensures
            r == (if i32::MIN <= self.value() <= i32::MAX {
                Ok(self.value() as i32)
            } else {
                Err(OutOfRange)
            }),
    {
        let (negative, magnitude) = self.0.sign_magnitude();
        match signed_within(negative, magnitude, i32::MIN as i128, i32::MAX as i128) {
            Some(v) => Ok(v as i32),
            None => Err(OutOfRange),
        }
    }

    /// The value as an `i64`, or `OutOfRange` when it does not fit.
    pub fn to_i64(&self) -> (r: Result<i64, OutOfRange>)
        ensures
            r == (if i64::MIN <= self.value() <= i64::MAX {
                Ok(self.value() as i64)
            } else {
                Err(OutOfRange)
            }),
    {
        let (negative, magnitude) = self.0.sign_magnitude();
        match signed_within(negative, magnitude, i64::MIN as i128, i64::MAX as i128) {
            Some(v) => Ok(v as i64),
            None => Err(OutOfRange),
        }
    }

    /// The value as an `i128`, or `OutOfRange` when it does not fit.
    pub fn to_i128(&self) -> (r: Result<i128, OutOfRange>)
        ensures
            r == (if i128::MIN <= self.value() <= i128::MAX {
                Ok(self.value() as i128)
            } else {
                Err(OutOfRange)
            }),
    {
        let (negative, magnitude) = self.0.sign_magnitude();
        match signed_within(negative, magnitude, i128::MIN as i128, i128::MAX as i128) {
            Some(v) => Ok(v as i128),
            None => Err(OutOfRange),
        }
    }

    /// The value as an `isize`, or `OutOfRange` when it does not fit.
    pub fn to_isize(&self) -> (r: Result<isize, OutOfRange>)
        ensures
            r == (if isize::MIN <= self.value() <= isize::MAX {
                Ok(self.value() as isize)
            } else {
                Err(OutOfRange)
            }),
    {
        let (negative, magnitude) = self.0.sign_magnitude();
        match signed_within(negative, magnitude, isize::MIN as i128, isize::MAX as i128) {
            Some(v) => Ok(v as isize),
            None => Err(OutOfRange),
        }
    }
}

/// Wrapping a value and extracting it again gives back the same value.
pub proof fn lemma_wrap_then_extract<T: IntegerValue>(n: T)
    ensures
        Ordinal(n).0 == n,
        Ordinal(n).value() == n.int_value(),
{
}

/// Ordinals of equal values agree whatever their integer types: the same
/// suffix, the same text, and the same outcome of every narrowing.
pub proof fn lemma_same_value_same_ordinal<T: IntegerValue, U: IntegerValue>(
    a: Ordinal<T>,
    b: Ordinal<U>,
)
    requires
        a.value() == b.value(),
    ensures
        ordinal_suffix(a.value()) == ordinal_suffix(b.value()),
        ordinal_text(a.value()) == ordinal_text(b.value()),
        (u8::MIN <= a.value() <= u8::MAX) == (u8::MIN <= b.value() <= u8::MAX),
        (u16::MIN <= a.value() <= u16::MAX) == (u16::MIN <= b.value() <= u16::MAX),
        (u32::MIN <= a.value() <= u32::MAX) == (u32::MIN <= b.value() <= u32::MAX),
        (u64::MIN <= a.value() <= u64::MAX) == (u64::MIN <= b.value() <= u64::MAX),
        (u128::MIN <= a.value() <= u128::MAX) == (u128::MIN <= b.value() <= u128::MAX),
        (usize::MIN <= a.value() <= usize::MAX) == (usize::MIN <= b.value() <= usize::MAX),
        (i8::MIN <= a.value() <= i8::MAX) == (i8::MIN <= b.value() <= i8::MAX),
        (i16::MIN <= a.value() <= i16::MAX) == (i16::MIN <= b.value() <= i16::MAX),
        (i32::MIN <= a.value() <= i32::MAX) == (i32::MIN <= b.value() <= i32::MAX),
        (i64::MIN <= a.value() <= i64::MAX) == (i64::MIN <= b.value() <= i64::MAX),
        (i128::MIN <= a.value() <= i128::MAX) == (i128::MIN <= b.value() <= i128::MAX),
        (isize::MIN <= a.value() <= isize::MAX) == (isize::MIN <= b.value() <= isize::MAX),
{
}

/// Wraps a bare integer as an ordinal.
pub trait ToOrdinal: Sized {
    fn to_ordinal(&self) -> (r: Ordinal<Self>)
        ensures
            r.0 == *self,
    ;
}

impl<T: IntegerValue> ToOrdinal for T {
    fn to_ordinal(&self) -> (r: Ordinal<T>) {
        Ordinal(*self)
    }
}

} // verus!
