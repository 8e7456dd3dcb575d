//! Building blocks for domain driven design: aggregate-root and
//! domain-event interfaces, together with a derivation engine that wires a
//! user-defined record type to those interfaces from its structural shape
//! alone.
//!
//! A derivation takes the structural description of a record type — its
//! name and its (field name, field type) pairs in declaration order —
//! locates the field playing each semantic role of the target interface by
//! a substring test on the field names, validates that the located fields
//! carry the expected semantic types, and synthesizes the implementation
//! wiring the interface's operations to those fields. On the first unmet
//! precondition it stops and reports a diagnostic instead; no partial
//! implementation is ever produced.

use vstd::prelude::*;

pub mod aggregate_root;
pub mod descriptor;
pub mod diagnostic;
pub mod domain_types;
pub mod event;
pub mod laws;
pub mod matching;
pub mod persistence;
pub mod synth;
pub mod type_validation;

use crate::aggregate_root::{aggregate_root_rejection, AggregateRootMeta};
use crate::descriptor::{first_match, StructDescriptor};
use crate::diagnostic::{Diagnostic, Target};
use crate::event::{domain_event_rejection, DomainEventMeta};
use crate::synth::{AggregateRootImpl, DomainEventImpl};

verus! {

/// Derives the aggregate-root interface for the described record type.
///
/// The derivation accepts exactly the descriptions that
/// [`aggregate_root_rejection`] assigns nothing to: named records with an
/// identity-typed identity field and an event-log field. On success the
/// synthesized implementation names the host type and wires the identity
/// operation to the first field whose name contains `"id"` and the
/// event-log operations to the first field whose name contains `"events"`.
/// On failure the diagnostic carries the host type's name, the target
/// interface, and the first violated precondition.
pub fn aggregate_root(input: &StructDescriptor) -> (r: Result<AggregateRootImpl, Diagnostic>)
    ensures
        match r {
            Ok(g) => {
                &&& aggregate_root_rejection(*input) is None
                &&& g.host@ == input.name@
                &&& first_match(input.spec_fields(), "id"@) matches Some(i) && g.id_field@
                    == input.spec_fields()[i].name@
                &&& first_match(input.spec_fields(), "events"@) matches Some(j) && g.events_field@
                    == input.spec_fields()[j].name@
            },
            Err(d) => {
                &&& aggregate_root_rejection(*input) matches Some(k) && d.kind == k
                &&& d.target == Target::AggregateRoot
                &&& d.host@ == input.name@
            },
        },
{
    let meta = match AggregateRootMeta::new(input) {
        Err(err) => {
            return Err(err);
        },
        Ok(meta) => meta,
    };
    Ok(meta.expand())
}

/// Derives the domain-event interface for the described record type.
///
/// The derivation accepts exactly the descriptions that
/// [`domain_event_rejection`] assigns nothing to: named records with an
/// identity-typed identity field and a timestamp-typed timestamp field. On
/// success the synthesized implementation names the host type and wires
/// the identity read to the first field whose name contains `"id"` and the
/// timestamp read to the first field whose name contains `"timestamp"`. On
/// failure the diagnostic carries the host type's name, the target
/// interface, and the first violated precondition.
pub fn domain_event(input: &StructDescriptor) -> (r: Result<DomainEventImpl, Diagnostic>)
    ensures
        match r {
            Ok(g) => {
                &&& domain_event_rejection(*input) is None
                &&& g.host@ == input.name@
                &&& first_match(input.spec_fields(), "id"@) matches Some(i) && g.id_field@
                    == input.spec_fields()[i].name@
                &&& first_match(input.spec_fields(), "timestamp"@) matches Some(j)
                    && g.timestamp_field@ == input.spec_fields()[j].name@
            },
            Err(d) => {
                &&& domain_event_rejection(*input) matches Some(k) && d.kind == k
                &&& d.target == Target::DomainEvent
                &&& d.host@ == input.name@
            },
        },
{
    let meta = match DomainEventMeta::new(input) {
        Err(err) => {
            return Err(err);
        },
        Ok(meta) => meta,
    };
    Ok(meta.expand())
}

} // verus!
