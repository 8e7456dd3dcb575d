//! Role-violation reports.
//!
//! A failed derivation produces a [`Diagnostic`] instead of an
//! implementation: which interface was being derived, which precondition
//! was violated, and the name of the offending record type as the anchor
//! to its declaration.

use vstd::prelude::*;

use crate::matching::{contains_needle, occurs_at};

verus! {

/// The interface a derivation targets.
#[derive(Clone, Copy, Debug, PartialEq, Eq, Structural)]
pub enum Target {
    AggregateRoot,
    DomainEvent,
}

/// The precondition a record type failed to meet.
#[derive(Clone, Copy, Debug, PartialEq, Eq, Structural)]
pub enum DiagnosticKind {
    /// The type is not a record with named fields.
    NotANamedRecord,
    /// No field name contains the identity role's substring.
    MissingIdentityField,
    /// The identity-role field is not identity-typed.
    WrongIdentityType,
    /// No field name contains the event-log role's substring.
    MissingEventLogField,
    /// No field name contains the timestamp role's substring.
    MissingTimestampField,
    /// The timestamp-role field is not timestamp-typed.
    WrongTimestampType,
}

/// A role-violation report, anchored to the offending record type by name.
#[derive(Clone, Debug)]
pub struct Diagnostic {
    /// The name of the record type whose derivation failed.
    pub host: String,
    /// The interface that was being derived.
    pub target: Target,
    /// The violated precondition.
    pub kind: DiagnosticKind,
}

/// The message that a diagnostic for `target` and `kind` carries.
pub open spec fn message_spec(target: Target, kind: DiagnosticKind) -> Seq<char> {
    match target {
        Target::AggregateRoot => match kind {
            DiagnosticKind::NotANamedRecord => "`AggregateRoot` has to be used with structs with named fields"@,
            DiagnosticKind::MissingIdentityField => "`AggregateRoot` does not contain id field of type `Uuid`"@,
            DiagnosticKind::WrongIdentityType => "`AggregateRoot` does not contain id field of type `Uuid`"@,
            DiagnosticKind::MissingEventLogField => "`AggregateRoot` does not contain events field of type `Vec<Box<dyn DomainEvent>>`"@,
            DiagnosticKind::MissingTimestampField => "`AggregateRoot` does not contain timestamp field of type `DateTime<Utc>`"@,
            DiagnosticKind::WrongTimestampType => "`AggregateRoot` does not contain timestamp field of type `DateTime<Utc>`"@,
        },
        Target::DomainEvent => match kind {
            DiagnosticKind::NotANamedRecord => "`DomainEvent` has to be used with structs with named fields"@,
            DiagnosticKind::MissingIdentityField => "`DomainEvent` does not contain id field of type `Uuid`"@,
            DiagnosticKind::WrongIdentityType => "`DomainEvent` does not contain id field of type `Uuid`"@,
            DiagnosticKind::MissingEventLogField => "`DomainEvent` does not contain events field of type `Vec<Box<dyn DomainEvent>>`"@,
            DiagnosticKind::MissingTimestampField => "`DomainEvent` does not contain timestamp field of type `DateTime<Utc>`"@,
            DiagnosticKind::WrongTimestampType => "`DomainEvent` does not contain timestamp field of type `DateTime<Utc>`"@,
        },
    }
}

/// The name of the interface a derivation targets.
pub open spec fn target_name_spec(target: Target) -> Seq<char> {
    match target {
        Target::AggregateRoot => "AggregateRoot"@,
        Target::DomainEvent => "DomainEvent"@,
    }
}

/// Every message names the interface it is about: the target interface's
/// name occurs in the message text.
pub proof fn lemma_message_names_interface(target: Target, kind: DiagnosticKind)
    ensures
        contains_needle(message_spec(target, kind), target_name_spec(target), false),
{
    reveal_strlit("AggregateRoot");
    reveal_strlit("DomainEvent");
    match target {
        Target::AggregateRoot => {
            match kind {
                DiagnosticKind::NotANamedRecord => {
                    reveal_strlit("`AggregateRoot` has to be used with structs with named fields");
                },
                DiagnosticKind::MissingIdentityField | DiagnosticKind::WrongIdentityType => {
                    reveal_strlit("`AggregateRoot` does not contain id field of type `Uuid`");
                },
                DiagnosticKind::MissingEventLogField => {
                    reveal_strlit(
                        "`AggregateRoot` does not contain events field of type `Vec<Box<dyn DomainEvent>>`",
                    );
                },
                DiagnosticKind::MissingTimestampField | DiagnosticKind::WrongTimestampType => {
                    reveal_strlit(
                        "`AggregateRoot` does not contain timestamp field of type `DateTime<Utc>`",
                    );
                },
            }
            assert(occurs_at(message_spec(target, kind), "AggregateRoot"@, 1, false));
        },
        Target::DomainEvent => {
            match kind {
                DiagnosticKind::NotANamedRecord => {
                    reveal_strlit("`DomainEvent` has to be used with structs with named fields");
                },
                DiagnosticKind::MissingIdentityField | DiagnosticKind::WrongIdentityType => {
                    reveal_strlit("`DomainEvent` does not contain id field of type `Uuid`");
                },
                DiagnosticKind::MissingEventLogField => {
                    reveal_strlit(
                        "`DomainEvent` does not contain events field of type `Vec<Box<dyn DomainEvent>>`",
                    );
                },
                DiagnosticKind::MissingTimestampField | DiagnosticKind::WrongTimestampType => {
                    reveal_strlit(
                        "`DomainEvent` does not contain timestamp field of type `DateTime<Utc>`",
                    );
                },
            }
            assert(occurs_at(message_spec(target, kind), "DomainEvent"@, 1, false));
        },
    }
}

impl Diagnostic {
    /// The human-readable message: it names the target interface and the
    /// missing or mismatched role.
    pub fn message(&self) -> (r: &'static str)
        ensures
            r@ == message_spec(self.target, self.kind),
    {
        match self.target {
            Target::AggregateRoot => match self.kind {
                DiagnosticKind::NotANamedRecord => "`AggregateRoot` has to be used with structs with named fields",
                DiagnosticKind::MissingIdentityField => "`AggregateRoot` does not contain id field of type `Uuid`",
                DiagnosticKind::WrongIdentityType => "`AggregateRoot` does not contain id field of type `Uuid`",
                DiagnosticKind::MissingEventLogField => "`AggregateRoot` does not contain events field of type `Vec<Box<dyn DomainEvent>>`",
                DiagnosticKind::MissingTimestampField => "`AggregateRoot` does not contain timestamp field of type `DateTime<Utc>`",
                DiagnosticKind::WrongTimestampType => "`AggregateRoot` does not contain timestamp field of type `DateTime<Utc>`",
            },
            Target::DomainEvent => match self.kind {
                DiagnosticKind::NotANamedRecord => "`DomainEvent` has to be used with structs with named fields",
                DiagnosticKind::MissingIdentityField => "`DomainEvent` does not contain id field of type `Uuid`",
                DiagnosticKind::WrongIdentityType => "`DomainEvent` does not contain id field of type `Uuid`",
                DiagnosticKind::MissingEventLogField => "`DomainEvent` does not contain events field of type `Vec<Box<dyn DomainEvent>>`",
                DiagnosticKind::MissingTimestampField => "`DomainEvent` does not contain timestamp field of type `DateTime<Utc>`",
                DiagnosticKind::WrongTimestampType => "`DomainEvent` does not contain timestamp field of type `DateTime<Utc>`",
            },
        }
    }
}

} // verus!
