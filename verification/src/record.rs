//! The order record and its normalization.

use vstd::prelude::*;
use crate::text::{trim_spec, upper_seq, trim_str, to_upper_string};

verus! {

/// One order record: three optional text fields. After normalization no
/// field holds an empty or whitespace-only string; such values collapse
/// to `None`.
pub struct Order {
    pub event_id: Option<String>,
    pub part_number: Option<String>,
    pub timestamp: Option<String>,
}

/// Mathematical image of an [`Order`]: each field as an optional
/// character sequence.
pub struct OrderView {
    pub event_id: Option<Seq<char>>,
    pub part_number: Option<Seq<char>>,
    pub timestamp: Option<Seq<char>>,
}

/// The image of one optional text field.
pub open spec fn opt_view(f: Option<String>) -> Option<Seq<char>> {
    match f {
        None => None,
        Some(s) => Some(s@),
    }
}

impl View for Order {
    type V = OrderView;

    open spec fn view(&self) -> OrderView {
        OrderView {
            event_id: opt_view(self.event_id),
            part_number: opt_view(self.part_number),
            timestamp: opt_view(self.timestamp),
        }
    }
}

/// Normalization of a plain field: absent stays absent, a present value
/// is trimmed, and a value that is blank once trimmed becomes absent.
pub open spec fn norm_plain(f: Option<Seq<char>>) -> Option<Seq<char>> {
    match f {
        None => None,
        Some(s) => if trim_spec(s).len() == 0 {
            None
        } else {
            Some(trim_spec(s))
        },
    }
}

/// Normalization of the part-code field: as [`norm_plain`], and the kept
/// value is additionally ASCII upper-cased.
pub open spec fn norm_part(f: Option<Seq<char>>) -> Option<Seq<char>> {
    match f {
        None => None,
        Some(s) => if trim_spec(s).len() == 0 {
            None
        } else {
            Some(upper_seq(trim_spec(s)))
        },
    }
}

/// Normalization of a whole record, field by field.
pub open spec fn norm_order(o: OrderView) -> OrderView {
    OrderView {
        event_id: norm_plain(o.event_id),
        part_number: norm_part(o.part_number),
        timestamp: norm_plain(o.timestamp),
    }
}

/// Trim one field and collapse a blank result to `None`.
fn clean_plain_field(f: Option<String>) -> (r: Option<String>)
    ensures
        opt_view(r) == norm_plain(opt_view(f)),
{
    match f {
        None => None,
        Some(v) => {
            let trimmed = trim_str(v.as_str());
            if trimmed.as_str().unicode_len() == 0 {
                None
            } else {
                Some(trimmed)
            }
        },
    }
}

/// Trim the part-code field, collapse a blank result to `None`, and
/// upper-case what is kept.
fn clean_part_field(f: Option<String>) -> (r: Option<String>)
    ensures
        opt_view(r) == norm_part(opt_view(f)),
{
    match f {
        None => None,
        Some(v) => {
            let trimmed = trim_str(v.as_str());
            if trimmed.as_str().unicode_len() == 0 {
                None
            } else {
                Some(to_upper_string(trimmed.as_str()))
            }
        },
    }
}

/// Normalize a record: trim every present field, upper-case the part
/// code, and turn whitespace-only values into absent fields.
pub fn clean_input(order: Order) -> (r: Order)
    ensures
        r@ == norm_order(order@),
{
    let event_id = clean_plain_field(order.event_id);
    let part_number = clean_part_field(order.part_number);
    let timestamp = clean_plain_field(order.timestamp);
    Order { event_id, part_number, timestamp }
}

} // verus!
