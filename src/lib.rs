//! Random one-time passwords over a configurable pool of characters.

mod flags;
mod otp;

pub use flags::{
    class_if, lemma_pool_contains, lemma_pool_empty_iff_none_enabled, Flags, DIGITS,
    LOWER_CASE_ALPHABETS, SPECIAL_CHARS, UPPER_CASE_ALPHABETS,
};
pub use otp::{generate, password_from_indices, ERR_ALL_FALSE_FLAGS, ERR_ZERO_LENGTH};
