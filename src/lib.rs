//! Presentation layer for the on-board train wifi portal: stop listings,
//! speed readings and a status-bar payload, each rendered from plain values.

use vstd::prelude::*;

pub mod text;
pub mod time;
pub mod stop;
pub mod report;

verus! {

} // verus!
