//! Seals [`crate::pid::PidLike`]: nothing outside this crate can name this trait.

use vstd::prelude::*;

verus! {

pub trait Sealed {

}

} // verus!
