//! Pipeline elements: custom processing of the parser's output.
use vstd::prelude::*;

pub mod timestamping;

pub use crate::pipeline::elements::timestamping::{TimeFormat, TimeOffset, Timestamping};

verus! {

} // verus!
