//! The domain-event interface and its derivation.
//!
//! A domain event is an identifiable, timestamped fact produced by an
//! aggregate. [`DomainEventMeta`] validates a record's structural
//! description against the interface's two roles — identity and timestamp —
//! and, on success, synthesizes the implementation that wires the
//! interface's reads to the two bound fields.

use vstd::prelude::*;

use crate::descriptor::{extract_fields, first_match, locate, FieldDescriptor, StructDescriptor};
use crate::diagnostic::{Diagnostic, DiagnosticKind, Target};
use crate::synth::DomainEventImpl;
use crate::type_validation::{is_datetime, is_datetime_spec, is_uuid, is_uuid_spec};

verus! {

/// The interface a derived domain event satisfies: an identity and a
/// timestamp.
pub trait DomainEvent {
    /// The timestamp representation the event carries, a point in time
    /// with its time zone.
    type Timestamp;

    /// A copy of the event's identity.
    fn id(&self) -> uuid::Uuid;

    /// A copy of the event's timestamp.
    fn timestamp(&self) -> Self::Timestamp;
}

/// Why role validation rejects the fields of a named record for the
/// domain-event interface, if it does: the identity role is checked first
/// (present, then identity-typed), the timestamp role second (present,
/// then timestamp-typed). Nothing means both roles matched.
pub open spec fn event_role_rejection(fields: Seq<FieldDescriptor>) -> Option<DiagnosticKind> {
    match first_match(fields, "id"@) {
        None => Some(DiagnosticKind::MissingIdentityField),
        Some(i) => if !is_uuid_spec(fields[i]) {
            Some(DiagnosticKind::WrongIdentityType)
        } else {
            match first_match(fields, "timestamp"@) {
                None => Some(DiagnosticKind::MissingTimestampField),
                Some(j) => if !is_datetime_spec(fields[j]) {
                    Some(DiagnosticKind::WrongTimestampType)
                } else {
                    None
                },
            }
        },
    }
}

/// Why the domain-event derivation rejects a structural description, if it
/// does: a type that is not a named-field record is rejected outright,
/// anything else by role validation. Nothing means the derivation accepts.
pub open spec fn domain_event_rejection(input: StructDescriptor) -> Option<DiagnosticKind> {
    if !input.is_named_record() {
        Some(DiagnosticKind::NotANamedRecord)
    } else {
        event_role_rejection(input.spec_fields())
    }
}

/// A validated domain-event derivation: the host type's name and its named
/// fields, with both roles known to have matched.
pub struct DomainEventMeta<'a> {
    /// The host type's name.
    pub ident: &'a String,
    /// The host type's fields, in declaration order.
    pub fields: &'a Vec<FieldDescriptor>,
}

impl<'a> DomainEventMeta<'a> {
    /// Validates a structural description for the domain-event interface:
    /// accepts exactly the named records whose roles both match, and
    /// rejects anything else with the diagnostic that
    /// [`domain_event_rejection`] assigns to it.
    pub fn new(input: &'a StructDescriptor) -> (r: Result<DomainEventMeta<'a>, Diagnostic>)
        ensures
            match r {
                Ok(meta) => {
                    &&& domain_event_rejection(*input) is None
                    &&& meta.ident@ == input.name@
                    &&& meta.fields@ == input.spec_fields()
                },
                Err(d) => {
                    &&& domain_event_rejection(*input) matches Some(k) && d.kind == k
                    &&& d.target == Target::DomainEvent
                    &&& d.host@ == input.name@
                },
            },
    {
        let fields = match extract_fields(input, Target::DomainEvent) {
            Ok(fields) => fields,
            Err(d) => {
                return Err(d);
            },
        };
        let meta = DomainEventMeta { ident: &input.name, fields };
        match meta.check_preconditions() {
            Ok(()) => Ok(meta),
            Err(d) => Err(d),
        }
    }

    /// Checks the interface's roles in order, identity then timestamp, and
    /// stops at the first violation.
    pub fn check_preconditions(&self) -> (r: Result<(), Diagnostic>)
        ensures
            match r {
                Ok(()) => event_role_rejection(self.fields@) is None,
                Err(d) => {
                    &&& event_role_rejection(self.fields@) matches Some(k) && d.kind == k
                    &&& d.target == Target::DomainEvent
                    &&& d.host@ == self.ident@
                },
            },
    {
        match self.check_id_field() {
            Err(d) => {
                return Err(d);
            },
            Ok(()) => {},
        }
        match self.check_timestamp_field() {
            Err(d) => {
                return Err(d);
            },
            Ok(()) => {},
        }
        Ok(())
    }

    /// The first field whose name contains `"id"`, in declaration order.
    pub fn id_field(&self) -> (r: Option<&FieldDescriptor>)
        ensures
            match r {
                Some(f) => first_match(self.fields@, "id"@) matches Some(i) && *f
                    == self.fields@[i],
                None => first_match(self.fields@, "id"@) is None,
            },
    {
        locate(self.fields, "id")
    }

    /// The first field whose name contains `"timestamp"`, in declaration
    /// order.
    pub fn timestamp_field(&self) -> (r: Option<&FieldDescriptor>)
        ensures
            match r {
                Some(f) => first_match(self.fields@, "timestamp"@) matches Some(i) && *f
                    == self.fields@[i],
                None => first_match(self.fields@, "timestamp"@) is None,
            },
    {
        locate(self.fields, "timestamp")
    }

    /// Checks the identity role: a field named for it must exist and must
    /// be identity-typed.
    pub fn check_id_field(&self) -> (r: Result<(), Diagnostic>)
        ensures
            match r {
                Ok(()) => first_match(self.fields@, "id"@) matches Some(i) && is_uuid_spec(
                    self.fields@[i],
                ),
                Err(d) => {
                    &&& d.target == Target::DomainEvent
                    &&& d.host@ == self.ident@
                    &&& match first_match(self.fields@, "id"@) {
                        None => d.kind == DiagnosticKind::MissingIdentityField,
                        Some(i) => !is_uuid_spec(self.fields@[i]) && d.kind
                            == DiagnosticKind::WrongIdentityType,
                    }
                },
            },
    {
        if let Some(field) = self.id_field() {
            if !is_uuid(field) {
                return Err(
                    Diagnostic {
                        host: self.ident.clone(),
                        target: Target::DomainEvent,
                        kind: DiagnosticKind::WrongIdentityType,
                    },
                );
            }
            Ok(())
        } else {
            Err(
                Diagnostic {
                    host: self.ident.clone(),
                    target: Target::DomainEvent,
                    kind: DiagnosticKind::MissingIdentityField,
                },
            )
        }
    }

    /// Checks the timestamp role: a field named for it must exist and must
    /// be timestamp-typed.
    pub fn check_timestamp_field(&self) -> (r: Result<(), Diagnostic>)
        ensures
            match r {
                Ok(()) => first_match(self.fields@, "timestamp"@) matches Some(i)
                    && is_datetime_spec(self.fields@[i]),
                Err(d) => {
                    &&& d.target == Target::DomainEvent
                    &&& d.host@ == self.ident@
                    &&& match first_match(self.fields@, "timestamp"@) {
                        None => d.kind == DiagnosticKind::MissingTimestampField,
                        Some(i) => !is_datetime_spec(self.fields@[i]) && d.kind
                            == DiagnosticKind::WrongTimestampType,
                    }
                },
            },
    {
        if let Some(field) = self.timestamp_field() {
            if !is_datetime(field) {
                return Err(
                    Diagnostic {
                        host: self.ident.clone(),
                        target: Target::DomainEvent,
                        kind: DiagnosticKind::WrongTimestampType,
                    },
                );
            }
            Ok(())
        } else {
            Err(
                Diagnostic {
                    host: self.ident.clone(),
                    target: Target::DomainEvent,
                    kind: DiagnosticKind::MissingTimestampField,
                },
            )
        }
    }

    /// Synthesizes the implementation for a validated derivation: both
    /// reads of the interface are wired to the fields their roles bound,
    /// the identity read to the first identity-named field and the
    /// timestamp read to the first timestamp-named field.
    pub fn expand(&self) -> (r: DomainEventImpl)
        requires
            event_role_rejection(self.fields@) is None,
        ensures
            r.host@ == self.ident@,
            first_match(self.fields@, "id"@) matches Some(i) && r.id_field@
                == self.fields@[i].name@,
            first_match(self.fields@, "timestamp"@) matches Some(j) && r.timestamp_field@
                == self.fields@[j].name@,
    {
        let id_field = match self.id_field() {
            Some(f) => f,
            None => unreached(),
        };
        let timestamp_field = match self.timestamp_field() {
            Some(f) => f,
            None => unreached(),
        };
        DomainEventImpl {
            host: self.ident.clone(),
            id_field: id_field.name.clone(),
            timestamp_field: timestamp_field.name.clone(),
        }
    }
}

/// The record shape the domain-event derivation is made for, with the
/// synthesized implementation's behaviour written out and proved: both
/// reads return the stored field values unchanged.
pub struct BasicEvent<T> {
    /// The event's identity.
    pub id: uuid::Uuid,
    /// The event's timestamp.
    pub timestamp: T,
}

impl<T: Copy> BasicEvent<T> {
    /// A copy of the stored identity, exactly as stored.
    pub fn id(&self) -> (r: uuid::Uuid)
        ensures
            r == self.id,
    {
        self.id
    }

    /// A copy of the stored timestamp, exactly as stored.
    pub fn timestamp(&self) -> (r: T)
        ensures
            r == self.timestamp,
    {
        self.timestamp
    }
}

impl<T: Copy> DomainEvent for BasicEvent<T> {
    type Timestamp = T;

    fn id(&self) -> uuid::Uuid {
        self.id
    }

    fn timestamp(&self) -> T {
        self.timestamp
    }
}

} // verus!
