//! The aggregate-root interface and its derivation.
//!
//! An aggregate root is an entity that owns a log of domain events and is
//! the atomic unit for applying changes. [`AggregateRootMeta`] validates a
//! record's structural description against the interface's two roles —
//! identity and event log — and, on success, synthesizes the
//! implementation that wires the interface's operations to the two bound
//! fields.

use vstd::prelude::*;

use crate::descriptor::{extract_fields, first_match, locate, FieldDescriptor, StructDescriptor};
use crate::diagnostic::{Diagnostic, DiagnosticKind, Target};
use crate::synth::AggregateRootImpl;
use crate::type_validation::{is_events_vec, is_uuid, is_uuid_spec};

verus! {

/// The interface a derived aggregate root satisfies: an identity, and an
/// ordered, appendable, clearable log of events.
pub trait AggregateRoot {
    /// The stored event representation the log holds.
    type Event;

    /// A copy of the aggregate's identity.
    fn aggregate_id(&self) -> uuid::Uuid;

    /// A read-only view of the event log, in insertion order.
    fn events(&self) -> &Vec<Self::Event>;

    /// Appends one event to the log.
    fn add_event(&mut self, event: Self::Event);

    /// Empties the log.
    fn clear_events(&mut self);
}

/// Why role validation rejects the fields of a named record for the
/// aggregate-root interface, if it does: the identity role is checked
/// first (present, then identity-typed), the event-log role second
/// (present; any declared type is accepted). Nothing means both roles
/// matched.
pub open spec fn aggregate_role_rejection(fields: Seq<FieldDescriptor>) -> Option<DiagnosticKind> {
    match first_match(fields, "id"@) {
        None => Some(DiagnosticKind::MissingIdentityField),
        Some(i) => if !is_uuid_spec(fields[i]) {
            Some(DiagnosticKind::WrongIdentityType)
        } else {
            match first_match(fields, "events"@) {
                None => Some(DiagnosticKind::MissingEventLogField),
                Some(j) => None,
            }
        },
    }
}

/// Why the aggregate-root derivation rejects a structural description, if
/// it does: a type that is not a named-field record is rejected outright,
/// anything else by role validation. Nothing means the derivation accepts.
pub open spec fn aggregate_root_rejection(input: StructDescriptor) -> Option<DiagnosticKind> {
    if !input.is_named_record() {
        Some(DiagnosticKind::NotANamedRecord)
    } else {
        aggregate_role_rejection(input.spec_fields())
    }
}

/// A validated aggregate-root derivation: the host type's name and its
/// named fields, with both roles known to have matched.
pub struct AggregateRootMeta<'a> {
    /// The host type's name.
    pub ident: &'a String,
    /// The host type's fields, in declaration order.
    pub fields: &'a Vec<FieldDescriptor>,
}

impl<'a> AggregateRootMeta<'a> {
    /// Validates a structural description for the aggregate-root
    /// interface: accepts exactly the named records whose roles both
    /// match, and rejects anything else with the diagnostic that
    /// [`aggregate_root_rejection`] assigns to it.
    pub fn new(input: &'a StructDescriptor) -> (r: Result<AggregateRootMeta<'a>, Diagnostic>)
        ensures
            match r {
                Ok(meta) => {
                    &&& aggregate_root_rejection(*input) is None
                    &&& meta.ident@ == input.name@
                    &&& meta.fields@ == input.spec_fields()
                },
                Err(d) => {
                    &&& aggregate_root_rejection(*input) matches Some(k) && d.kind == k
                    &&& d.target == Target::AggregateRoot
                    &&& d.host@ == input.name@
                },
            },
    {
        let fields = match extract_fields(input, Target::AggregateRoot) {
            Ok(fields) => fields,
            Err(d) => {
                return Err(d);
            },
        };
        let meta = AggregateRootMeta { ident: &input.name, fields };
        match meta.check_preconditions() {
            Ok(()) => Ok(meta),
            Err(d) => Err(d),
        }
    }

    /// Checks the interface's roles in order, identity then event log, and
    /// stops at the first violation.
    pub fn check_preconditions(&self) -> (r: Result<(), Diagnostic>)
        ensures
            match r {
                Ok(()) => aggregate_role_rejection(self.fields@) is None,
                Err(d) => {
                    &&& aggregate_role_rejection(self.fields@) matches Some(k) && d.kind == k
                    &&& d.target == Target::AggregateRoot
                    &&& d.host@ == self.ident@
                },
            },
    {
        match self.check_id_field() {
            Err(d) => {
                return Err(d);
            },
            Ok(()) => {},
        }
        match self.check_events_field() {
            Err(d) => {
                return Err(d);
            },
            Ok(()) => {},
        }
        Ok(())
    }

    /// The first field whose name contains `"id"`, in declaration order.
    pub fn id_field(&self) -> (r: Option<&FieldDescriptor>)
        ensures
            match r {
                Some(f) => first_match(self.fields@, "id"@) matches Some(i) && *f
                    == self.fields@[i],
                None => first_match(self.fields@, "id"@) is None,
            },
    {
        locate(self.fields, "id")
    }

    /// The first field whose name contains `"events"`, in declaration
    /// order.
    pub fn events_field(&self) -> (r: Option<&FieldDescriptor>)
        ensures
            match r {
                Some(f) => first_match(self.fields@, "events"@) matches Some(i) && *f
                    == self.fields@[i],
                None => first_match(self.fields@, "events"@) is None,
            },
    {
        locate(self.fields, "events")
    }

    /// Checks the identity role: a field named for it must exist and must
    /// be identity-typed.
    pub fn check_id_field(&self) -> (r: Result<(), Diagnostic>)
        ensures
            match r {
                Ok(()) => first_match(self.fields@, "id"@) matches Some(i) && is_uuid_spec(
                    self.fields@[i],
                ),
                Err(d) => {
                    &&& d.target == Target::AggregateRoot
                    &&& d.host@ == self.ident@
                    &&& match first_match(self.fields@, "id"@) {
                        None => d.kind == DiagnosticKind::MissingIdentityField,
                        Some(i) => !is_uuid_spec(self.fields@[i]) && d.kind
                            == DiagnosticKind::WrongIdentityType,
                    }
                },
            },
    {
        if let Some(field) = self.id_field() {
            if !is_uuid(field) {
                return Err(
                    Diagnostic {
                        host: self.ident.clone(),
                        target: Target::AggregateRoot,
                        kind: DiagnosticKind::WrongIdentityType,
                    },
                );
            }
            Ok(())
        } else {
            Err(
                Diagnostic {
                    host: self.ident.clone(),
                    target: Target::AggregateRoot,
                    kind: DiagnosticKind::MissingIdentityField,
                },
            )
        }
    }

    /// Checks the event-log role: a field named for it must exist. Its
    /// declared type is also tested, but every type passes that test.
    pub fn check_events_field(&self) -> (r: Result<(), Diagnostic>)
        ensures
            match r {
                Ok(()) => first_match(self.fields@, "events"@) is Some,
                Err(d) => {
                    &&& d.target == Target::AggregateRoot
                    &&& d.host@ == self.ident@
                    &&& first_match(self.fields@, "events"@) is None
                    &&& d.kind == DiagnosticKind::MissingEventLogField
                },
            },
    {
        if let Some(field) = self.events_field() {
            if !is_events_vec(field) {
                return Err(
                    Diagnostic {
                        host: self.ident.clone(),
                        target: Target::AggregateRoot,
                        kind: DiagnosticKind::MissingEventLogField,
                    },
                );
            }
            Ok(())
        } else {
            Err(
                Diagnostic {
                    host: self.ident.clone(),
                    target: Target::AggregateRoot,
                    kind: DiagnosticKind::MissingEventLogField,
                },
            )
        }
    }

    /// Synthesizes the implementation for a validated derivation: every
    /// operation of the interface is wired to the field its role bound,
    /// the identity operations to the first identity-named field and the
    /// event-log operations to the first event-log-named field.
    pub fn expand(&self) -> (r: AggregateRootImpl)
        requires
            aggregate_role_rejection(self.fields@) is None,
        ensures
            r.host@ == self.ident@,
            first_match(self.fields@, "id"@) matches Some(i) && r.id_field@
                == self.fields@[i].name@,
            first_match(self.fields@, "events"@) matches Some(j) && r.events_field@
                == self.fields@[j].name@,
    {
        let id_field = match self.id_field() {
            Some(f) => f,
            None => unreached(),
        };
        let events_field = match self.events_field() {
            Some(f) => f,
            None => unreached(),
        };
        AggregateRootImpl {
            host: self.ident.clone(),
            id_field: id_field.name.clone(),
            events_field: events_field.name.clone(),
        }
    }
}

/// The record shape the aggregate-root derivation is made for, with the
/// synthesized implementation's behaviour written out and proved: the
/// identity is returned unchanged, appending adds exactly the given event
/// at the end, clearing empties the log, and neither touches the identity.
pub struct BasicAggregate<E> {
    /// The aggregate's identity.
    pub aggregate_id: uuid::Uuid,
    /// The event log, in insertion order.
    pub events: Vec<E>,
}

impl<E> BasicAggregate<E> {
    /// An aggregate with the given identity and an empty event log.
    pub fn new(aggregate_id: uuid::Uuid) -> (r: BasicAggregate<E>)
        ensures
            r.aggregate_id == aggregate_id,
            r.events@ == Seq::<E>::empty(),
    {
        BasicAggregate { aggregate_id, events: Vec::new() }
    }

    /// A copy of the stored identity, exactly as stored.
    pub fn aggregate_id(&self) -> (r: uuid::Uuid)
        ensures
            r == self.aggregate_id,
    {
        self.aggregate_id
    }

    /// A read-only view of the event log, exactly as stored.
    pub fn events(&self) -> (r: &Vec<E>)
        ensures
            r@ == self.events@,
    {
        &self.events
    }

    /// Appends the given event: the log grows by exactly that one event at
    /// the end, and the identity is unchanged.
    pub fn add_event(&mut self, event: E)
        ensures
            final(self).events@ == old(self).events@.push(event),
            final(self).aggregate_id == old(self).aggregate_id,
    {
        self.events.push(event);
    }

    /// Empties the event log; the identity is unchanged.
    pub fn clear_events(&mut self)
        ensures
            final(self).events@ == Seq::<E>::empty(),
            final(self).aggregate_id == old(self).aggregate_id,
    {
        self.events.clear();
    }
}

impl<E> AggregateRoot for BasicAggregate<E> {
    type Event = E;

    fn aggregate_id(&self) -> uuid::Uuid {
        self.aggregate_id
    }

    fn events(&self) -> &Vec<E> {
        &self.events
    }

    fn add_event(&mut self, event: E) {
        self.events.push(event);
    }

    fn clear_events(&mut self) {
        self.events.clear();
    }
}

} // verus!
