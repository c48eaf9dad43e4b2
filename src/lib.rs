use vstd::prelude::*;

pub mod config;
pub mod routing;
pub mod message;
pub mod controller;
pub mod laws;

verus! {

} // verus!
