use vstd::prelude::*;

pub mod text;
pub mod display;
pub mod content;
pub mod machine;
pub mod preparation;
pub mod provision;
pub mod proxy;
pub mod network;
pub mod report;
pub mod menu;
pub mod laws;
pub mod runs;
pub mod effects;

verus! {

} // verus!
