use vstd::prelude::*;

pub mod batch;
pub mod config;
pub mod errors;
pub mod json;
pub mod models;
pub mod poll;
pub mod ports;
pub mod stamps;
pub mod text;
pub mod upgrade;
pub mod workers;

verus! {
}
