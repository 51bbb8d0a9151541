//! General properties of normalization and validation, stated and
//! proved once for all records.

use vstd::prelude::*;
use crate::text::{
    trim_spec,
    upper_seq,
    is_ws,
    is_ascii_lower,
    lemma_trim_idempotent,
    lemma_trim_blank,
    lemma_trim_no_edge_ws,
    lemma_trim_fixed,
    lemma_upper_char_props,
};
use crate::record::{OrderView, norm_plain, norm_part, norm_order};
use crate::validate::{
    Severity,
    field_issues,
    missing_issue,
    validate_spec,
};

verus! {

/// Whether an optional field is present with a non-blank value.
pub open spec fn present_non_blank(f: Option<Seq<char>>) -> bool {
    match f {
        None => false,
        Some(s) => trim_spec(s).len() > 0,
    }
}

/// How many of a record's three fields are absent.
pub open spec fn absent_count(o: OrderView) -> int {
    (if o.event_id is None {
        1int
    } else {
        0int
    }) + (if o.part_number is None {
        1int
    } else {
        0int
    }) + (if o.timestamp is None {
        1int
    } else {
        0int
    })
}

/// Normalizing a plain field twice is the same as normalizing it once.
pub proof fn lemma_norm_plain_idempotent(f: Option<Seq<char>>)
    ensures
        norm_plain(norm_plain(f)) == norm_plain(f),
{
    if let Some(s) = f {
        lemma_trim_idempotent(s);
    }
}

/// Normalizing the part-code field twice is the same as normalizing it
/// once.
pub proof fn lemma_norm_part_idempotent(f: Option<Seq<char>>)
    ensures
        norm_part(norm_part(f)) == norm_part(f),
{
    if let Some(s) = f {
        if trim_spec(s).len() > 0 {
            let t = trim_spec(s);
            let u = upper_seq(t);
            lemma_trim_no_edge_ws(s);
            lemma_upper_char_props(t[0]);
            lemma_upper_char_props(t.last());
            assert(u[0] == crate::text::upper_char(t[0]));
            assert(u.last() == crate::text::upper_char(t.last()));
            lemma_trim_fixed(u);
            assert forall|k: int| 0 <= k < u.len() implies upper_seq(u)[k] == u[k] by {
                lemma_upper_char_props(t[k]);
            }
            assert(upper_seq(u) =~= u);
        }
    }
}

/// Normalization is idempotent: normalizing a record twice yields the
/// same record as normalizing it once.
pub proof fn lemma_normalization_idempotent(o: OrderView)
    ensures
        norm_order(norm_order(o)) == norm_order(o),
{
    lemma_norm_plain_idempotent(o.event_id);
    lemma_norm_part_idempotent(o.part_number);
    lemma_norm_plain_idempotent(o.timestamp);
}

/// A field value made of whitespace only becomes absent under
/// normalization, for plain fields and for the part code alike.
pub proof fn lemma_blank_value_becomes_absent(s: Seq<char>)
    requires
        forall|k: int| 0 <= k < s.len() ==> is_ws(s[k]),
    ensures
        norm_plain(Some(s)) is None,
        norm_part(Some(s)) is None,
{
    lemma_trim_blank(s);
}

/// An absent field contributes exactly the "missing required field"
/// issue, never the "must not be empty" one.
pub proof fn lemma_absent_field_issue(name: Seq<char>)
    ensures
        field_issues(name, None) == seq![missing_issue(name)],
        field_issues(name, None)[0].message == "missing required field"@,
        field_issues(name, None)[0].message != "must not be empty"@,
{
    reveal_strlit("missing required field");
    reveal_strlit("must not be empty");
}

/// The part code of a normalized record, when present, holds no
/// lower-case ASCII letter.
pub proof fn lemma_part_code_uppercase(o: OrderView)
    ensures
        (norm_order(o).part_number matches Some(p) ==> forall|k: int|
            0 <= k < p.len() ==> !is_ascii_lower(p[k])),
{
    if let Some(s) = o.part_number {
        if trim_spec(s).len() > 0 {
            let t = trim_spec(s);
            let p = upper_seq(t);
            assert forall|k: int| 0 <= k < p.len() implies !is_ascii_lower(p[k]) by {
                lemma_upper_char_props(t[k]);
            }
        }
    }
}

/// A record whose three fields are all present and non-blank validates
/// with no issues.
pub proof fn lemma_valid_record_no_issues(o: OrderView)
    requires
        present_non_blank(o.event_id),
        present_non_blank(o.part_number),
        present_non_blank(o.timestamp),
    ensures
        validate_spec(o) == Seq::<crate::validate::IssueView>::empty(),
{
    assert(validate_spec(o) =~= Seq::<crate::validate::IssueView>::empty());
}

/// A record missing exactly one field, the other two present and
/// non-blank, validates with exactly one issue: an error naming the
/// missing field, with message "missing required field".
pub proof fn lemma_one_missing_one_issue(o: OrderView)
    requires
        absent_count(o) == 1,
        o.event_id is Some ==> present_non_blank(o.event_id),
        o.part_number is Some ==> present_non_blank(o.part_number),
        o.timestamp is Some ==> present_non_blank(o.timestamp),
    ensures
        validate_spec(o).len() == 1,
        validate_spec(o)[0].severity == Severity::Error,
        validate_spec(o)[0].message == "missing required field"@,
        o.event_id is None ==> validate_spec(o)[0].field == "event_id"@,
        o.part_number is None ==> validate_spec(o)[0].field == "part_number"@,
        o.timestamp is None ==> validate_spec(o)[0].field == "timestamp"@,
{
}

/// The rank of a field name in the fixed report order.
pub open spec fn field_rank(name: Seq<char>) -> int {
    if name == "event_id"@ {
        0
    } else if name == "part_number"@ {
        1
    } else if name == "timestamp"@ {
        2
    } else {
        3
    }
}

/// Issues always come in the fixed field order — identifier, then part
/// code, then timestamp — whichever fields are invalid.
pub proof fn lemma_issue_order_fixed(o: OrderView)
    ensures
        forall|i: int, j: int|
            0 <= i < j < validate_spec(o).len() ==> field_rank(validate_spec(o)[i].field)
                < field_rank(validate_spec(o)[j].field),
{
    reveal_strlit("event_id");
    reveal_strlit("part_number");
    reveal_strlit("timestamp");
    assert("event_id"@.len() == 8);
    assert("part_number"@.len() == 11);
    assert("timestamp"@.len() == 9);
    let v = validate_spec(o);
    assert forall|i: int, j: int| 0 <= i < j < v.len() implies field_rank(v[i].field)
        < field_rank(v[j].field) by {
        assert(field_rank("event_id"@) == 0);
        assert(field_rank("part_number"@) == 1);
        assert(field_rank("timestamp"@) == 2);
    }
}

} // verus!
