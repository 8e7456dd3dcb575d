//! The engine's laws, stated over the same spec functions its executable
//! contracts use, and proved once and for all inputs.

use vstd::prelude::*;

use crate::aggregate_root::aggregate_root_rejection;
use crate::descriptor::{
    field_matches, first_match, lemma_first_match, FieldDescriptor, StructDescriptor,
};
use crate::diagnostic::DiagnosticKind;
use crate::event::domain_event_rejection;
use crate::type_validation::{is_datetime_spec, is_uuid_spec};

verus! {

/// A named record whose first identity-named field is identity-typed, and
/// which has an event-log-named field of whatever declared type, is
/// accepted by the aggregate-root derivation. Which fields the synthesized
/// implementation binds, and how its operations behave on them, is stated
/// by the `ensures` of [`crate::aggregate_root`] and of
/// [`crate::aggregate_root::BasicAggregate`]'s methods.
pub proof fn lemma_aggregate_root_accepts(input: StructDescriptor, i: int)
    requires
        input.is_named_record(),
        first_match(input.spec_fields(), "id"@) == Some(i),
        is_uuid_spec(input.spec_fields()[i]),
        first_match(input.spec_fields(), "events"@) is Some,
    ensures
        aggregate_root_rejection(input) is None,
{
}

/// A named record whose first identity-named field is identity-typed and
/// whose first timestamp-named field is timestamp-typed is accepted by the
/// domain-event derivation. The synthesized reads return the bound fields
/// unchanged: see the `ensures` of [`crate::domain_event`] and of
/// [`crate::event::BasicEvent`]'s accessors.
pub proof fn lemma_domain_event_accepts(input: StructDescriptor, i: int, j: int)
    requires
        input.is_named_record(),
        first_match(input.spec_fields(), "id"@) == Some(i),
        is_uuid_spec(input.spec_fields()[i]),
        first_match(input.spec_fields(), "timestamp"@) == Some(j),
        is_datetime_spec(input.spec_fields()[j]),
    ensures
        domain_event_rejection(input) is None,
{
}

/// A named record none of whose field names contains the identity role's
/// needle is rejected by both derivations with the missing-identity
/// diagnostic; each entry point's `ensures` stamps it with the respective
/// interface.
pub proof fn lemma_missing_identity_rejects(input: StructDescriptor)
    requires
        input.is_named_record(),
        forall|j: int|
            0 <= j < input.spec_fields().len() ==> !field_matches(
                #[trigger] input.spec_fields()[j],
                "id"@,
            ),
    ensures
        aggregate_root_rejection(input) == Some(DiagnosticKind::MissingIdentityField),
        domain_event_rejection(input) == Some(DiagnosticKind::MissingIdentityField),
{
    lemma_first_match(input.spec_fields(), "id"@);
    match first_match(input.spec_fields(), "id"@) {
        Some(i) => {
            assert(!field_matches(input.spec_fields()[i], "id"@));
        },
        None => {},
    }
}

/// A named record whose bound identity field — the first field whose name
/// contains the identity role's needle — is not identity-typed is rejected
/// by both derivations with the wrong-type diagnostic.
pub proof fn lemma_wrong_identity_rejects(input: StructDescriptor, i: int)
    requires
        input.is_named_record(),
        first_match(input.spec_fields(), "id"@) == Some(i),
        !is_uuid_spec(input.spec_fields()[i]),
    ensures
        aggregate_root_rejection(input) == Some(DiagnosticKind::WrongIdentityType),
        domain_event_rejection(input) == Some(DiagnosticKind::WrongIdentityType),
{
}

/// Role binding is deterministic and order-dependent: of two fields whose
/// names both contain the same needle, the earlier-declared one is bound —
/// the binding falls on a matching index no later than either. Reordering
/// the fields therefore moves the binding accordingly.
pub proof fn lemma_role_binding_deterministic(
    fields: Seq<FieldDescriptor>,
    needle: Seq<char>,
    i: int,
    j: int,
)
    requires
        0 <= i < j < fields.len(),
        field_matches(fields[i], needle),
        field_matches(fields[j], needle),
    ensures
        first_match(fields, needle) matches Some(k) && 0 <= k <= i && field_matches(
            fields[k],
            needle,
        ),
{
    lemma_first_match(fields, needle);
    match first_match(fields, needle) {
        Some(k) => {
            if k > i {
                assert(!field_matches(fields[i], needle));
            }
        },
        None => {
            assert(!field_matches(fields[i], needle));
        },
    }
}

} // verus!
