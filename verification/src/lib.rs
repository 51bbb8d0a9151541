//! Normalization and validation of order records.
//!
//! An order record has three optional text fields: an identifier, a part
//! code, and a timestamp. The library trims and case-normalizes the fields,
//! checks that each required field is present and non-blank, and renders a
//! fixed-format report of the issues found.

pub mod laws;
pub mod pipeline;
pub mod record;
pub mod report;
pub mod text;
pub mod validate;

use vstd::prelude::*;

verus! {

} // verus!
