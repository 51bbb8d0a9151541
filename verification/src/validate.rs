//! Validation of a record: one ordered issue per required field that is
//! absent or blank.

use vstd::prelude::*;
use crate::record::{Order, OrderView};
use crate::text::{trim_spec, is_blank};

verus! {

/// How severe a finding is. Only [`Severity::Error`] findings make a run
/// fail; [`Severity::Warning`] is part of the closed set of severities
/// but is never produced by the current checks.
#[derive(Clone, Copy, Debug, PartialEq, Eq, Structural)]
pub enum Severity {
    Error,
    Warning,
}

/// One validation finding: the field it concerns, a severity, and a
/// human-readable message.
pub struct Issue {
    pub field: String,
    pub severity: Severity,
    pub message: String,
}

/// Mathematical image of an [`Issue`].
pub struct IssueView {
    pub field: Seq<char>,
    pub severity: Severity,
    pub message: Seq<char>,
}

impl View for Issue {
    type V = IssueView;

    open spec fn view(&self) -> IssueView {
        IssueView { field: self.field@, severity: self.severity, message: self.message@ }
    }
}

/// The image of a list of issues.
pub open spec fn issues_view(s: Seq<Issue>) -> Seq<IssueView> {
    s.map_values(|i: Issue| i@)
}

/// The issue reported for a required field that is absent.
pub open spec fn missing_issue(name: Seq<char>) -> IssueView {
    IssueView { field: name, severity: Severity::Error, message: "missing required field"@ }
}

/// The issue reported for a required field that is present but blank.
pub open spec fn empty_issue(name: Seq<char>) -> IssueView {
    IssueView { field: name, severity: Severity::Error, message: "must not be empty"@ }
}

/// The issues one required field contributes: exactly one when the field
/// is absent or blank, none otherwise.
pub open spec fn field_issues(name: Seq<char>, f: Option<Seq<char>>) -> Seq<IssueView> {
    match f {
        None => seq![missing_issue(name)],
        Some(s) => if trim_spec(s).len() == 0 {
            seq![empty_issue(name)]
        } else {
            Seq::<IssueView>::empty()
        },
    }
}

/// All issues of a record, in the fixed field order: identifier, then
/// part code, then timestamp.
pub open spec fn validate_spec(o: OrderView) -> Seq<IssueView> {
    field_issues("event_id"@, o.event_id) + field_issues("part_number"@, o.part_number)
        + field_issues("timestamp"@, o.timestamp)
}

impl Issue {
    /// Build an error-severity issue for one field.
    pub fn error(field: &str, msg: &str) -> (r: Self)
        ensures
            r@ == (IssueView {
                field: field@,
                severity: Severity::Error,
                message: msg@,
            }),
    {
        Issue { field: field.to_owned(), severity: Severity::Error, message: msg.to_owned() }
    }
}

/// Check one field and append its issues, keeping the running list equal
/// to the issues of the fields handled so far.
fn check_field(issues: &mut Vec<Issue>, name: &str, f: &Option<String>)
    ensures
        issues_view(final(issues)@) == issues_view(old(issues)@) + field_issues(
            name@,
            crate::record::opt_view(*f),
        ),
{
    match f {
        None => {
            issues.push(Issue::error(name, "missing required field"));
            proof {
                assert(issues_view(issues@) =~= issues_view(old(issues)@) + field_issues(
                    name@,
                    crate::record::opt_view(*f),
                ));
            }
        },
        Some(v) => {
            if is_blank(v.as_str()) {
                issues.push(Issue::error(name, "must not be empty"));
                proof {
                    assert(issues_view(issues@) =~= issues_view(old(issues)@) + field_issues(
                        name@,
                        crate::record::opt_view(*f),
                    ));
                }
            } else {
                proof {
                    assert(issues_view(issues@) =~= issues_view(old(issues)@) + field_issues(
                        name@,
                        crate::record::opt_view(*f),
                    ));
                }
            }
        },
    }
}

/// Validate a record: one error-severity issue per required field that
/// is absent ("missing required field") or blank ("must not be empty"),
/// in the fixed order identifier, part code, timestamp; no issues when
/// all three fields are present and non-blank.
pub fn validate(order: &Order) -> (r: Vec<Issue>)
    ensures
        issues_view(r@) == validate_spec(order@),
{
    let mut issues: Vec<Issue> = Vec::new();
    proof {
        assert(issues_view(issues@) =~= Seq::<IssueView>::empty());
    }
    check_field(&mut issues, "event_id", &order.event_id);
    check_field(&mut issues, "part_number", &order.part_number);
    check_field(&mut issues, "timestamp", &order.timestamp);
    proof {
        assert(issues_view(issues@) =~= validate_spec(order@));
    }
    issues
}

} // verus!
