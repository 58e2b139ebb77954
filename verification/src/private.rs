//! The seal on the traits that only this crate implements.

use vstd::prelude::*;

verus! {

/// A marker that no type outside this crate can carry.
pub trait Private {

}

} // verus!
