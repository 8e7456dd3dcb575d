//! Semantic type checks for the bound fields.
//!
//! Only the outermost segment of a field's declared type path is inspected,
//! never its generic arguments: the segment is compared under ASCII case
//! folding against a keyword specific to the role — `"uuid"` for identity
//! fields and `"datetime"` for timestamp fields. The event-log role places
//! no constraint on the declared type: any field whose name matches the
//! role is accepted.

use vstd::prelude::*;

use crate::descriptor::FieldDescriptor;
use crate::matching::{contains_needle, contains_needle_exec};

verus! {

/// The outermost segment of the field's declared type path, lowercased,
/// contains the keyword. A field whose declared type is not a path matches
/// no keyword.
pub open spec fn outer_segment_matches(f: FieldDescriptor, keyword: Seq<char>) -> bool {
    f.ty_segments@.len() > 0 && contains_needle(f.ty_segments@[0]@, keyword, true)
}

/// The field carries the identity semantic type.
pub open spec fn is_uuid_spec(f: FieldDescriptor) -> bool {
    outer_segment_matches(f, "uuid"@)
}

/// The field carries the timestamp semantic type.
pub open spec fn is_datetime_spec(f: FieldDescriptor) -> bool {
    outer_segment_matches(f, "datetime"@)
}

/// The field is acceptable as the event log. Every declared type is: the
/// event-log role is bound by name alone.
pub open spec fn is_events_vec_spec(f: FieldDescriptor) -> bool {
    true
}

/// Does the field's declared type carry the identity semantic type? True
/// exactly when the outermost path segment, lowercased, contains `"uuid"`.
pub fn is_uuid(field: &FieldDescriptor) -> (r: bool)
    ensures
        r == is_uuid_spec(*field),
{
    if field.ty_segments.len() == 0 {
        false
    } else {
        contains_needle_exec(field.ty_segments[0].as_str(), "uuid", true)
    }
}

/// Does the field's declared type carry the timestamp semantic type? True
/// exactly when the outermost path segment, lowercased, contains
/// `"datetime"`.
pub fn is_datetime(field: &FieldDescriptor) -> (r: bool)
    ensures
        r == is_datetime_spec(*field),
{
    if field.ty_segments.len() == 0 {
        false
    } else {
        contains_needle_exec(field.ty_segments[0].as_str(), "datetime", true)
    }
}

/// Is the field's declared type acceptable as the event log? It always is:
/// the event-log role accepts any declared type.
pub fn is_events_vec(field: &FieldDescriptor) -> (r: bool)
    ensures
        r == is_events_vec_spec(*field),
{
    true
}

} // verus!
