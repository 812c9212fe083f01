//! Keeps the media kinds to those of this crate.

use vstd::prelude::*;

verus! {

pub trait Sealed {

}

} // verus!
