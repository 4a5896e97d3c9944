//! Post-processing of extracted items.
use vstd::prelude::*;

pub mod elements;

verus! {

} // verus!
