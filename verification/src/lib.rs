use vstd::prelude::*;

pub mod events;
pub mod guard;
pub mod job;
pub mod patcher;
pub mod pipeline;
pub mod registry;
pub mod scaffold;
pub mod text;
pub mod versions;

verus! {

} // verus!
