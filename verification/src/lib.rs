use vstd::prelude::*;

pub mod text;
pub mod json;
pub mod errors;
pub mod installer;
pub mod api;
pub mod context;
pub mod output;
pub mod queue_output;
pub mod runtime;
pub mod session;
pub mod flow;
pub mod machine;
pub mod laws;
pub mod updater;
pub mod banner;

verus! {
} // verus!
