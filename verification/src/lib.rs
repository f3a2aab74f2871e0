use vstd::prelude::*;

pub mod app;
pub mod client;
pub mod cluster;
pub mod fetch;
pub mod laws;
pub mod rates;
pub mod state;
pub mod text;
pub mod ui;

verus! {

} // verus!
