//! Conversion between an FFI-style optional string and `Option<String>`.

use vstd::prelude::*;

verus! {

/// An FFI-style optional string: a string that is only meaningful while the
/// flag beside it says so.
#[derive(Debug, Clone, PartialEq, Eq)]
pub struct MaybeString {
    /// The carried characters; meaningless when `valid` is false.
    pub string: String,
    /// Whether a string is present at all.
    pub valid: bool,
}

/// Turn an FFI-style optional string into `Option<String>`: the carried
/// characters exactly when one is present, `None` otherwise.
pub fn maybe_to_option_string(m_str: &MaybeString) -> (r: Option<String>)
    ensures
        m_str.valid ==> (r matches Some(s) && s@ == m_str.string@),
        !m_str.valid ==> r is None,
{
    if !m_str.valid {
        return None;
    }
    Some(m_str.string.clone())
}

} // verus!
