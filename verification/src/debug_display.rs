//! Values that can be both debugged and displayed.

use std::fmt::Debug;
use std::fmt::Display;
use vstd::prelude::*;

verus! {

/// A type that implements [`Debug`] and [`Display`].
///
/// Messages that callers attach to an error are of such a type.
pub trait DebugDisplay: Debug + Display {

}

impl<T> DebugDisplay for T where T: Debug + Display {

}

} // verus!
