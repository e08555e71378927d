//! Startup logic of the Momentum desktop shell: the one command that the
//! front end can invoke, and the choice of plugins and setup steps for a
//! given build profile and platform.
use vstd::prelude::*;

pub mod command;
pub mod plan;

verus! {

} // verus!
