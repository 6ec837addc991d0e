use vstd::prelude::*;

pub mod accounts;
pub mod error;
pub mod instructions;
pub mod key;
pub mod state;
pub mod seeds;
pub mod laws;
pub mod laws_checks;
