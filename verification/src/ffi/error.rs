//! Errors for callers in other languages.

use vstd::prelude::*;

verus! {

#[derive(Debug, PartialEq, Eq)]
pub enum MoqError {
    /// A codec string was refused, and why.
    Codec(String),
}

/// A result by its mathematical form: the value, or the text of the error.
pub open spec fn told<T: View>(result: Result<T, MoqError>) -> Result<T::V, Seq<char>> {
    match result {
        Ok(value) => Ok(value@),
        Err(MoqError::Codec(text)) => Err(text@),
    }
}

} // verus!
