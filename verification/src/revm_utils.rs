//! The error that the database adapter for the EVM reports.

use vstd::prelude::*;

verus! {

/// An error met while reading state for the EVM, kept as its message.
#[derive(Debug, Clone)]
pub struct RevmUtilError(pub String);

impl RevmUtilError {
    /// The error that describes `value` by the text that `Display` gives it.
    pub fn as_value<T: std::fmt::Display>(value: T) -> (r: Self)
        ensures
            vstd::string::to_string_from_display_ensures::<T>(&value, r.0),
    {
        RevmUtilError(value.to_string())
    }

    /// The message shown when the error is displayed.
    pub fn message(&self) -> (r: String)
        ensures
            r@ == self.0@,
    {
        self.0.clone()
    }
}

impl From<String> for RevmUtilError {
    fn from(value: String) -> (r: Self)
        ensures
            r == RevmUtilError(value),
    {
        RevmUtilError(value)
    }
}

impl vstd::std_specs::convert::FromSpecImpl<String> for RevmUtilError {
    open spec fn obeys_from_spec() -> bool {
        true
    }

    open spec fn from_spec(v: String) -> Self {
        RevmUtilError(v)
    }
}

} // verus!
