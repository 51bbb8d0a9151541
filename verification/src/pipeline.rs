//! The per-record pipeline: normalize, validate, render, and decide
//! failure.

use vstd::prelude::*;
use crate::record::{Order, clean_input, norm_order};
use crate::validate::{validate, validate_spec};
use crate::report::{render_report, has_errors, report_spec, error_count_spec};

verus! {

/// Run one record through the whole pipeline. Returns the rendered
/// report of the normalized record's issues, and whether the record
/// fails (that is, whether it has at least one error-severity issue).
pub fn process_record(order: Order) -> (r: (String, bool))
    ensures
        r.0@ == report_spec(validate_spec(norm_order(order@))),
        r.1 == (error_count_spec(validate_spec(norm_order(order@))) > 0),
{
    let normalized = clean_input(order);
    let issues = validate(&normalized);
    let report = render_report(&issues);
    let failed = has_errors(&issues);
    (report, failed)
}

} // verus!
