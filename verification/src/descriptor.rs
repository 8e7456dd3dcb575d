//! The structural description a derivation works on: a record type's name
//! and its ordered fields, each field carrying its name and its declared
//! type as a qualified path.

use vstd::prelude::*;
use vstd::string::StrSliceExecFns;

use crate::diagnostic::{Diagnostic, DiagnosticKind, Target};
use crate::matching::{contains_needle, contains_needle_exec};

verus! {

/// One field of a record type: its name and its declared type, the latter
/// as the segments of a qualified path (`chrono::DateTime` is two segments).
/// A declared type that is not a path at all (a reference, a tuple, ...) is
/// represented by an empty segment list; no type keyword matches it.
#[derive(Clone, Debug, PartialEq, Eq)]
pub struct FieldDescriptor {
    /// The field's name.
    pub name: String,
    /// The segments of the declared type's path, outermost first, without
    /// generic arguments. Empty when the declared type is not a path.
    pub ty_segments: Vec<String>,
}

/// The shape of a described type. Only named-field records are accepted by
/// the derivations; every other shape is rejected before role validation.
#[derive(Clone, Debug, PartialEq, Eq)]
pub enum Shape {
    /// A record with exclusively named fields, in declaration order.
    NamedFields(Vec<FieldDescriptor>),
    /// A record with tuple (positional) fields.
    TupleFields,
    /// A unit record with no fields.
    UnitFields,
    /// An enum, union, or anything else that is not a record.
    NotAStruct,
}

/// The structural description of one type: its name and its shape.
#[derive(Clone, Debug, PartialEq, Eq)]
pub struct StructDescriptor {
    /// The described type's name.
    pub name: String,
    /// The described type's shape.
    pub shape: Shape,
}

impl StructDescriptor {
    /// The described type is a record with exclusively named fields.
    pub open spec fn is_named_record(&self) -> bool {
        self.shape is NamedFields
    }

    /// The described fields, in declaration order; empty unless the type is
    /// a named-field record.
    pub open spec fn spec_fields(&self) -> Seq<FieldDescriptor> {
        match self.shape {
            Shape::NamedFields(fields) => fields@,
            _ => Seq::empty(),
        }
    }
}

/// The field's name contains the role's needle, case-sensitively.
pub open spec fn field_matches(f: FieldDescriptor, needle: Seq<char>) -> bool {
    contains_needle(f.name@, needle, false)
}

/// The index of the first field, in declaration order, whose name contains
/// the needle; nothing when no field's name does.
pub open spec fn first_match(fields: Seq<FieldDescriptor>, needle: Seq<char>) -> Option<int>
    decreases fields.len(),
{
    if fields.len() == 0 {
        None
    } else if field_matches(fields[0], needle) {
        Some(0int)
    } else {
        match first_match(fields.drop_first(), needle) {
            Some(i) => Some(i + 1),
            None => None,
        }
    }
}

/// What `first_match` returns: the earliest declared field whose name
/// contains the needle, and nothing exactly when no field's name does.
/// This is the determinism of role binding: of two fields whose names both
/// contain the same role's needle, the earlier-declared one is bound, so
/// reordering the fields changes the binding accordingly.
pub proof fn lemma_first_match(fields: Seq<FieldDescriptor>, needle: Seq<char>)
    ensures
        match first_match(fields, needle) {
            Some(i) => {
                &&& 0 <= i < fields.len()
                &&& field_matches(fields[i], needle)
                &&& forall|j: int| 0 <= j < i ==> !field_matches(#[trigger] fields[j], needle)
            },
            None => forall|j: int|
                0 <= j < fields.len() ==> !field_matches(#[trigger] fields[j], needle),
        },
    decreases fields.len(),
{
    if fields.len() > 0 && !field_matches(fields[0], needle) {
        let tail = fields.drop_first();
        lemma_first_match(tail, needle);
        match first_match(tail, needle) {
            Some(i) => {
                assert(fields[i + 1] == tail[i]);
                assert forall|j: int| 0 <= j < i + 1 implies !field_matches(
                    #[trigger] fields[j],
                    needle,
                ) by {
                    if j > 0 {
                        assert(fields[j] == tail[j - 1]);
                        assert(!field_matches(tail[j - 1], needle));
                    }
                }
            },
            None => {
                assert forall|j: int| 0 <= j < fields.len() implies !field_matches(
                    #[trigger] fields[j],
                    needle,
                ) by {
                    if j > 0 {
                        assert(fields[j] == tail[j - 1]);
                        assert(!field_matches(tail[j - 1], needle));
                    }
                }
            },
        }
    }
}

/// A field that matches, all of whose predecessors do not, is the first
/// match.
pub proof fn lemma_first_match_found(fields: Seq<FieldDescriptor>, needle: Seq<char>, i: int)
    requires
        0 <= i < fields.len(),
        field_matches(fields[i], needle),
        forall|j: int| 0 <= j < i ==> !field_matches(#[trigger] fields[j], needle),
    ensures
        first_match(fields, needle) == Some(i),
{
    lemma_first_match(fields, needle);
    match first_match(fields, needle) {
        Some(k) => {
            if k < i {
                assert(!field_matches(fields[k], needle));
            }
            if i < k {
                assert(!field_matches(fields[i], needle));
            }
        },
        None => {
            assert(!field_matches(fields[i], needle));
        },
    }
}

/// Scans the fields in declaration order and returns the first one whose
/// name contains `needle`, or nothing when no field's name does.
pub fn locate<'a>(fields: &'a Vec<FieldDescriptor>, needle: &str) -> (r: Option<
    &'a FieldDescriptor,
>)
    ensures
        match r {
            Some(f) => first_match(fields@, needle@) matches Some(i) && *f == fields@[i],
            None => first_match(fields@, needle@) is None,
        },
{
    let mut i: usize = 0;
    while i < fields.len()
        invariant
            i <= fields@.len(),
            forall|j: int| 0 <= j < i ==> !field_matches(#[trigger] fields@[j], needle@),
        decreases fields@.len() - i,
    {
        if contains_needle_exec(fields[i].name.as_str(), needle, false) {
            proof {
                lemma_first_match_found(fields@, needle@, i as int);
            }
            return Some(&fields[i]);
        }
        i = i + 1;
    }
    proof {
        lemma_first_match(fields@, needle@);
        match first_match(fields@, needle@) {
            Some(k) => {
                assert(!field_matches(fields@[k], needle@));
            },
            None => {},
        }
    }
    None
}

/// The shape test in front of role validation: only a record with
/// exclusively named fields passes; any other shape is rejected with a
/// diagnostic of its own kind, distinct from every role diagnostic.
pub fn extract_fields<'a>(input: &'a StructDescriptor, target: Target) -> (r: Result<
    &'a Vec<FieldDescriptor>,
    Diagnostic,
>)
    ensures
        match r {
            Ok(fields) => input.is_named_record() && fields@ == input.spec_fields(),
            Err(d) => {
                &&& !input.is_named_record()
                &&& d.host@ == input.name@
                &&& d.target == target
                &&& d.kind == DiagnosticKind::NotANamedRecord
            },
        },
{
    match &input.shape {
        Shape::NamedFields(fields) => Ok(fields),
        _ => Err(
            Diagnostic {
                host: input.name.clone(),
                target,
                kind: DiagnosticKind::NotANamedRecord,
            },
        ),
    }
}

} // verus!
