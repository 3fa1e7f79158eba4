//! The legal bases a cross-border transfer can rest on, by wire value.

use vstd::prelude::*;

verus! {

pub const ADEQUACY: &'static str = "adequacy";
pub const SAFEGUARDS: &'static str = "safeguards";
pub const PASAL_56B_DPA: &'static str = "pasal_56b_dpa";
pub const CONSENT: &'static str = "consent";

} // verus!
