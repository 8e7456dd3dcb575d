//! The code synthesizer.
//!
//! On successful validation a derivation produces a generated
//! implementation: the host type's name together with the names of the
//! fields each interface operation is wired to. Rendering such a value
//! gives the implementation's source text. Synthesis is deterministic,
//! pure and total on validated input; it never fails, and no partial
//! implementation exists — failure lives entirely in validation.

use vstd::prelude::*;
use vstd::string::StringExecFns;

verus! {

/// A synthesized `AggregateRoot` implementation: `aggregate_id()` reads the
/// identity field, and `events()`, `add_event()` and `clear_events()` view,
/// append to and empty the event-log field.
#[derive(Clone, Debug)]
pub struct AggregateRootImpl {
    /// The host type the implementation is for.
    pub host: String,
    /// The field `aggregate_id()` returns a copy of.
    pub id_field: String,
    /// The field the event-log operations work on.
    pub events_field: String,
}

/// A synthesized `DomainEvent` implementation: `id()` and `timestamp()`
/// read the two bound fields directly.
#[derive(Clone, Debug)]
pub struct DomainEventImpl {
    /// The host type the implementation is for.
    pub host: String,
    /// The field `id()` returns a copy of.
    pub id_field: String,
    /// The field `timestamp()` returns a copy of.
    pub timestamp_field: String,
}

/// The source text of a synthesized `AggregateRoot` implementation.
pub open spec fn aggregate_root_source(
    host: Seq<char>,
    id_field: Seq<char>,
    events_field: Seq<char>,
) -> Seq<char> {
    "impl AggregateRoot for "@ + host
        + " {\n    fn aggregate_id(&self) -> Uuid {\n        self."@ + id_field
        + "\n    }\n    fn events(&self) -> &Vec<Box<dyn DomainEvent>> {\n        &self."@
        + events_field
        + "\n    }\n    fn add_event(&mut self, event: Box<dyn DomainEvent>) {\n        self."@
        + events_field + ".push(event);\n    }\n    fn clear_events(&mut self) {\n        self."@
        + events_field + ".clear();\n    }\n}\n"@
}

/// The source text of a synthesized `DomainEvent` implementation.
pub open spec fn domain_event_source(
    host: Seq<char>,
    id_field: Seq<char>,
    timestamp_field: Seq<char>,
) -> Seq<char> {
    "impl DomainEvent for "@ + host + " {\n    fn id(&self) -> Uuid {\n        self."@ + id_field
        + "\n    }\n    fn timestamp(&self) -> DateTime<Utc> {\n        self."@ + timestamp_field
        + "\n    }\n}\n"@
}

impl AggregateRootImpl {
    /// Renders the implementation's source text, wiring every operation of
    /// the target interface to its bound field.
    pub fn render(&self) -> (r: String)
        ensures
            r@ == aggregate_root_source(self.host@, self.id_field@, self.events_field@),
    {
        let mut r = String::new();
        r.append("impl AggregateRoot for ");
        r.append(self.host.as_str());
        r.append(" {\n    fn aggregate_id(&self) -> Uuid {\n        self.");
        r.append(self.id_field.as_str());
        r.append("\n    }\n    fn events(&self) -> &Vec<Box<dyn DomainEvent>> {\n        &self.");
        r.append(self.events_field.as_str());
        r.append("\n    }\n    fn add_event(&mut self, event: Box<dyn DomainEvent>) {\n        self.");
        r.append(self.events_field.as_str());
        r.append(".push(event);\n    }\n    fn clear_events(&mut self) {\n        self.");
        r.append(self.events_field.as_str());
        r.append(".clear();\n    }\n}\n");
        assert(r@ =~= aggregate_root_source(self.host@, self.id_field@, self.events_field@));
        r
    }
}

impl DomainEventImpl {
    /// Renders the implementation's source text, wiring both reads of the
    /// target interface to their bound fields.
    pub fn render(&self) -> (r: String)
        ensures
            r@ == domain_event_source(self.host@, self.id_field@, self.timestamp_field@),
    {
        let mut r = String::new();
        r.append("impl DomainEvent for ");
        r.append(self.host.as_str());
        r.append(" {\n    fn id(&self) -> Uuid {\n        self.");
        r.append(self.id_field.as_str());
        r.append("\n    }\n    fn timestamp(&self) -> DateTime<Utc> {\n        self.");
        r.append(self.timestamp_field.as_str());
        r.append("\n    }\n}\n");
        assert(r@ =~= domain_event_source(self.host@, self.id_field@, self.timestamp_field@));
        r
    }
}

} // verus!
