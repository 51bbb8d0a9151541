//! Rendering of the fixed-format validation report.

use vstd::prelude::*;
use crate::validate::{Issue, IssueView, Severity, issues_view};

verus! {

/// The decimal digit character for `d`, for `d < 10`.
pub open spec fn digit_char(d: nat) -> char {
    if d == 0 {
        '0'
    } else if d == 1 {
        '1'
    } else if d == 2 {
        '2'
    } else if d == 3 {
        '3'
    } else if d == 4 {
        '4'
    } else if d == 5 {
        '5'
    } else if d == 6 {
        '6'
    } else if d == 7 {
        '7'
    } else if d == 8 {
        '8'
    } else {
        '9'
    }
}

/// The usual decimal rendering of `n`, with no leading zeros except for
/// `n == 0` itself.
pub open spec fn dec_digits(n: nat) -> Seq<char>
    decreases n,
{
    if n < 10 {
        seq![digit_char(n)]
    } else {
        dec_digits(n / 10).push(digit_char(n % 10))
    }
}

/// The string slice for one decimal digit.
fn digit_str(d: usize) -> (r: &'static str)
    requires
        d < 10,
    ensures
        r@ == seq![digit_char(d as nat)],
{
    match d {
        0 => {
            proof {
                reveal_strlit("0");
                assert("0"@ =~= seq![digit_char(0)]);
            }
            "0"
        },
        1 => {
            proof {
                reveal_strlit("1");
                assert("1"@ =~= seq![digit_char(1)]);
            }
            "1"
        },
        2 => {
            proof {
                reveal_strlit("2");
                assert("2"@ =~= seq![digit_char(2)]);
            }
            "2"
        },
        3 => {
            proof {
                reveal_strlit("3");
                assert("3"@ =~= seq![digit_char(3)]);
            }
            "3"
        },
        4 => {
            proof {
                reveal_strlit("4");
                assert("4"@ =~= seq![digit_char(4)]);
            }
            "4"
        },
        5 => {
            proof {
                reveal_strlit("5");
                assert("5"@ =~= seq![digit_char(5)]);
            }
            "5"
        },
        6 => {
            proof {
                reveal_strlit("6");
                assert("6"@ =~= seq![digit_char(6)]);
            }
            "6"
        },
        7 => {
            proof {
                reveal_strlit("7");
                assert("7"@ =~= seq![digit_char(7)]);
            }
            "7"
        },
        8 => {
            proof {
                reveal_strlit("8");
                assert("8"@ =~= seq![digit_char(8)]);
            }
            "8"
        },
        _ => {
            proof {
                reveal_strlit("9");
                assert("9"@ =~= seq![digit_char(9)]);
            }
            "9"
        },
    }
}

/// Decimal rendering of a count, proved to match [`dec_digits`].
pub fn usize_to_string(n: usize) -> (r: String)
    ensures
        r@ == dec_digits(n as nat),
    decreases n,
{
    if n < 10 {
        digit_str(n).to_owned()
    } else {
        let mut prefix = usize_to_string(n / 10);
        prefix.append(digit_str(n % 10));
        proof {
            assert(prefix@ =~= dec_digits(n as nat));
        }
        prefix
    }
}

/// How many of the issues have error severity.
pub open spec fn error_count_spec(s: Seq<IssueView>) -> nat
    decreases s.len(),
{
    if s.len() == 0 {
        0
    } else {
        error_count_spec(s.drop_last()) + (if s.last().severity == Severity::Error {
            1nat
        } else {
            0nat
        })
    }
}

/// Count the error-severity issues.
pub fn count_errors(issues: &Vec<Issue>) -> (n: usize)
    ensures
        n == error_count_spec(issues_view(issues@)),
{
    let ghost all = issues_view(issues@);
    let mut n: usize = 0;
    let mut k: usize = 0;
    proof {
        assert(all.subrange(0, 0) =~= Seq::<IssueView>::empty());
    }
    while k < issues.len()
        invariant
            0 <= k <= issues.len(),
            n <= k,
            all == issues_view(issues@),
            all.len() == issues.len(),
            n == error_count_spec(all.subrange(0, k as int)),
        decreases issues.len() - k,
    {
        let is_err = match issues[k].severity {
            Severity::Error => true,
            Severity::Warning => false,
        };
        proof {
            assert(all.subrange(0, k + 1 as int).drop_last() =~= all.subrange(0, k as int));
            assert(all.subrange(0, k + 1 as int).last() == issues[k as int]@);
        }
        if is_err {
            n = n + 1;
        }
        k = k + 1;
    }
    proof {
        assert(all.subrange(0, issues.len() as int) =~= all);
    }
    n
}

/// Whether at least one issue has error severity: the condition under
/// which a run fails.
pub fn has_errors(issues: &Vec<Issue>) -> (b: bool)
    ensures
        b == (error_count_spec(issues_view(issues@)) > 0),
{
    count_errors(issues) > 0
}

/// The report line of one issue.
pub open spec fn issue_line(i: IssueView) -> Seq<char> {
    "ERROR "@ + i.field + ": "@ + i.message + "\n"@
}

/// The report lines of all issues, in input order.
pub open spec fn issue_lines(s: Seq<IssueView>) -> Seq<char>
    decreases s.len(),
{
    if s.len() == 0 {
        Seq::<char>::empty()
    } else {
        issue_lines(s.drop_last()) + issue_line(s.last())
    }
}

/// The head of the report: fixed header, error count, total count, and
/// a blank separator line.
pub open spec fn report_head(s: Seq<IssueView>) -> Seq<char> {
    "Validation report\n-----------------\nerrors: "@ + dec_digits(error_count_spec(s))
        + "\ntotal issues: "@ + dec_digits(s.len()) + "\n\n"@
}

/// The whole report: head, then one line per issue.
pub open spec fn report_spec(s: Seq<IssueView>) -> Seq<char> {
    report_head(s) + issue_lines(s)
}

/// Render the validation report for a list of issues, proved to match
/// [`report_spec`]: the fixed header, the error count, the total issue
/// count, a blank line, then one `ERROR field: message` line per issue
/// in input order.
pub fn render_report(issues: &Vec<Issue>) -> (r: String)
    ensures
        r@ == report_spec(issues_view(issues@)),
{
    let ghost all = issues_view(issues@);
    let mut out = "Validation report\n-----------------\nerrors: ".to_owned();
    let cnt = count_errors(issues);
    let num = usize_to_string(cnt);
    out.append(num.as_str());
    out.append("\ntotal issues: ");
    let tot = usize_to_string(issues.len());
    out.append(tot.as_str());
    out.append("\n\n");
    proof {
        assert(out@ =~= report_head(all));
        assert(all.subrange(0, 0) =~= Seq::<IssueView>::empty());
        assert(issue_lines(all.subrange(0, 0)) =~= Seq::<char>::empty());
        assert(out@ =~= report_head(all) + issue_lines(all.subrange(0, 0)));
    }
    let mut k: usize = 0;
    while k < issues.len()
        invariant
            0 <= k <= issues.len(),
            all == issues_view(issues@),
            all.len() == issues.len(),
            out@ == report_head(all) + issue_lines(all.subrange(0, k as int)),
        decreases issues.len() - k,
    {
        out.append("ERROR ");
        out.append(issues[k].field.as_str());
        out.append(": ");
        out.append(issues[k].message.as_str());
        out.append("\n");
        proof {
            assert(all.subrange(0, k + 1 as int).drop_last() =~= all.subrange(0, k as int));
            assert(all.subrange(0, k + 1 as int).last() == issues[k as int]@);
            assert(out@ =~= report_head(all) + issue_lines(all.subrange(0, k + 1 as int)));
        }
        k = k + 1;
    }
    proof {
        assert(all.subrange(0, issues.len() as int) =~= all);
    }
    out
}

} // verus!
