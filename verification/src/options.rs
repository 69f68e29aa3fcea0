//! The options that a command arrives with, as plain values.
//!
//! An option has a name and may have a value. What counts of a value is
//! whether it is a whole number, a text, or neither.

use vstd::prelude::*;

verus! {

/// The value of an option.
#[derive(Debug)]
pub enum OptionValue {
    /// A whole number.
    Integer(i128),
    /// A text.
    Text(String),
    /// Anything that is neither.
    Other,
}

/// One option of a command.
#[derive(Debug)]
pub struct CommandOption {
    pub name: String,
    pub value: Option<OptionValue>,
}

/// The value read as an `i64`: a whole number in the range of `i64`.
pub open spec fn value_as_i64(value: Option<OptionValue>) -> Option<i64> {
    match value {
        Some(OptionValue::Integer(n)) => if i64::MIN <= n <= i64::MAX {
            Some(n as i64)
        } else {
            None
        },
        _ => None,
    }
}

/// The value read as a `u64`: a whole number in the range of `u64`.
pub open spec fn value_as_u64(value: Option<OptionValue>) -> Option<u64> {
    match value {
        Some(OptionValue::Integer(n)) => if 0 <= n <= u64::MAX {
            Some(n as u64)
        } else {
            None
        },
        _ => None,
    }
}

/// The value read as a text.
pub open spec fn value_as_text(value: Option<OptionValue>) -> Option<Seq<char>> {
    match value {
        Some(OptionValue::Text(text)) => Some(text@),
        _ => None,
    }
}

impl CommandOption {
    /// The value read as an `i64`, where it is a whole number in that range.
    pub fn as_i64(&self) -> (number: Option<i64>)
        ensures
            number == value_as_i64(self.value),
    {
        match &self.value {
            Some(OptionValue::Integer(n)) => {
                if -0x8000_0000_0000_0000 <= *n && *n <= 0x7fff_ffff_ffff_ffff {
                    Some(*n as i64)
                } else {
                    None
                }
            },
            _ => None,
        }
    }

    /// The value read as a `u64`, where it is a whole number in that range.
    pub fn as_u64(&self) -> (number: Option<u64>)
        ensures
            number == value_as_u64(self.value),
    {
        match &self.value {
            Some(OptionValue::Integer(n)) => {
                if 0 <= *n && *n <= 0xffff_ffff_ffff_ffff {
                    Some(*n as u64)
                } else {
                    None
                }
            },
            _ => None,
        }
    }

    /// The value read as a text, where it is one.
    pub fn as_text(&self) -> (text: Option<&str>)
        ensures
            match text {
                Some(t) => value_as_text(self.value) == Some(t@),
                None => value_as_text(self.value) is None,
            },
    {
        match &self.value {
            Some(OptionValue::Text(text)) => Some(text.as_str()),
            _ => None,
        }
    }
}

} // verus!
