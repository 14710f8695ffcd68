//! Formats integers as English ordinal numbers: `1` becomes `"1st"`,
//! `22` becomes `"22nd"`, `113` becomes `"113th"`.

mod decimal;
mod integer;
mod ordinal;
mod suffix;

pub use decimal::{decimal_digits, decimal_of, digit_char, digits_of, magnitude_decimal};
pub use integer::IntegerValue;
pub use ordinal::{
    lemma_same_value_same_ordinal, lemma_wrap_then_extract, ordinal_text, Ordinal, OutOfRange,
    ToOrdinal,
};
pub use suffix::{
    ends_in, ends_in_teen, lemma_suffix_by_last_digit, lemma_suffix_of_decimal,
    lemma_suffix_of_magnitude_digits, lemma_suffix_sign_independent, lemma_teens_take_th,
    magnitude_of, ordinal_suffix, suffix_of_decimal, suffix_of_digits,
};
