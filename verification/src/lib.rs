use vstd::prelude::*;

pub mod accel;
pub mod error;
pub mod metadata;
pub mod ortcalls;
pub mod paths;
pub mod plugin;
pub mod providers;
pub mod role;
pub mod session;
pub mod text;

verus! {

} // verus!
