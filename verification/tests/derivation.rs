use ddd_rs::descriptor::{FieldDescriptor, Shape, StructDescriptor};
use ddd_rs::diagnostic::{DiagnosticKind, Target};
use ddd_rs::{aggregate_root, domain_event};

fn field(name: &str, segments: &[&str]) -> FieldDescriptor {
    FieldDescriptor {
        name: name.to_string(),
        ty_segments: segments.iter().map(|s| s.to_string()).collect(),
    }
}

fn named_record(name: &str, fields: Vec<FieldDescriptor>) -> StructDescriptor {
    StructDescriptor {
        name: name.to_string(),
        shape: Shape::NamedFields(fields),
    }
}

#[test]
fn aggregate_root_derives_and_binds_fields() {
    let input = named_record(
        "Cart",
        vec![field("aggregate_id", &["Uuid"]), field("events", &["Vec"])],
    );
    let generated = aggregate_root(&input).expect("derivation must accept");
    assert_eq!(generated.host, "Cart");
    assert_eq!(generated.id_field, "aggregate_id");
    assert_eq!(generated.events_field, "events");
}

#[test]
fn aggregate_root_accepts_name_containing_id() {
    let input = named_record(
        "Cart",
        vec![field("cart_id", &["Uuid"]), field("events", &["Vec"])],
    );
    let generated = aggregate_root(&input).expect("derivation must accept");
    assert_eq!(generated.id_field, "cart_id");
}

#[test]
fn aggregate_root_rejects_missing_identity() {
    let input = named_record(
        "Cart",
        vec![field("name", &["String"]), field("events", &["Vec"])],
    );
    let diagnostic = aggregate_root(&input).expect_err("derivation must reject");
    assert_eq!(diagnostic.kind, DiagnosticKind::MissingIdentityField);
    assert_eq!(diagnostic.target, Target::AggregateRoot);
    assert_eq!(diagnostic.host, "Cart");
    assert_eq!(
        diagnostic.message(),
        "`AggregateRoot` does not contain id field of type `Uuid`"
    );
}

#[test]
fn domain_event_derives_and_binds_fields() {
    let input = named_record(
        "CartCreated",
        vec![field("id", &["Uuid"]), field("timestamp", &["DateTime"])],
    );
    let generated = domain_event(&input).expect("derivation must accept");
    assert_eq!(generated.host, "CartCreated");
    assert_eq!(generated.id_field, "id");
    assert_eq!(generated.timestamp_field, "timestamp");
}

#[test]
fn domain_event_rejects_non_uuid_identity() {
    let input = named_record(
        "CartCreated",
        vec![field("id", &["i32"]), field("timestamp", &["DateTime"])],
    );
    let diagnostic = domain_event(&input).expect_err("derivation must reject");
    assert_eq!(diagnostic.kind, DiagnosticKind::WrongIdentityType);
    assert_eq!(diagnostic.target, Target::DomainEvent);
    assert_eq!(
        diagnostic.message(),
        "`DomainEvent` does not contain id field of type `Uuid`"
    );
}

#[test]
fn earlier_declared_field_wins_and_reordering_changes_binding() {
    let forward = named_record(
        "Cart",
        vec![
            field("id", &["Uuid"]),
            field("cart_id", &["Uuid"]),
            field("events", &["Vec"]),
        ],
    );
    let generated = aggregate_root(&forward).expect("derivation must accept");
    assert_eq!(generated.id_field, "id");

    let reordered = named_record(
        "Cart",
        vec![
            field("cart_id", &["Uuid"]),
            field("id", &["Uuid"]),
            field("events", &["Vec"]),
        ],
    );
    let generated = aggregate_root(&reordered).expect("derivation must accept");
    assert_eq!(generated.id_field, "cart_id");
}

#[test]
fn tuple_records_are_rejected_before_role_validation() {
    let input = StructDescriptor {
        name: "Pair".to_string(),
        shape: Shape::TupleFields,
    };
    let diagnostic = aggregate_root(&input).expect_err("derivation must reject");
    assert_eq!(diagnostic.kind, DiagnosticKind::NotANamedRecord);
    assert_eq!(
        diagnostic.message(),
        "`AggregateRoot` has to be used with structs with named fields"
    );
}

#[test]
fn non_structs_are_rejected_before_role_validation() {
    let input = StructDescriptor {
        name: "Status".to_string(),
        shape: Shape::NotAStruct,
    };
    let diagnostic = domain_event(&input).expect_err("derivation must reject");
    assert_eq!(diagnostic.kind, DiagnosticKind::NotANamedRecord);
    assert_eq!(diagnostic.target, Target::DomainEvent);
    assert_eq!(
        diagnostic.message(),
        "`DomainEvent` has to be used with structs with named fields"
    );
}

#[test]
fn unit_records_are_rejected_before_role_validation() {
    let input = StructDescriptor {
        name: "Marker".to_string(),
        shape: Shape::UnitFields,
    };
    let diagnostic = aggregate_root(&input).expect_err("derivation must reject");
    assert_eq!(diagnostic.kind, DiagnosticKind::NotANamedRecord);
}

#[test]
fn aggregate_root_rejects_missing_event_log() {
    let input = named_record("Cart", vec![field("id", &["Uuid"])]);
    let diagnostic = aggregate_root(&input).expect_err("derivation must reject");
    assert_eq!(diagnostic.kind, DiagnosticKind::MissingEventLogField);
    assert_eq!(
        diagnostic.message(),
        "`AggregateRoot` does not contain events field of type `Vec<Box<dyn DomainEvent>>`"
    );
}

#[test]
fn aggregate_root_rejects_non_uuid_identity() {
    let input = named_record(
        "Cart",
        vec![field("id", &["i32"]), field("events", &["Vec"])],
    );
    let diagnostic = aggregate_root(&input).expect_err("derivation must reject");
    assert_eq!(diagnostic.kind, DiagnosticKind::WrongIdentityType);
    assert_eq!(diagnostic.target, Target::AggregateRoot);
}

#[test]
fn domain_event_rejects_missing_timestamp() {
    let input = named_record("CartCreated", vec![field("id", &["Uuid"])]);
    let diagnostic = domain_event(&input).expect_err("derivation must reject");
    assert_eq!(diagnostic.kind, DiagnosticKind::MissingTimestampField);
    assert_eq!(
        diagnostic.message(),
        "`DomainEvent` does not contain timestamp field of type `DateTime<Utc>`"
    );
}

#[test]
fn domain_event_rejects_non_datetime_timestamp() {
    let input = named_record(
        "CartCreated",
        vec![field("id", &["Uuid"]), field("timestamp", &["String"])],
    );
    let diagnostic = domain_event(&input).expect_err("derivation must reject");
    assert_eq!(diagnostic.kind, DiagnosticKind::WrongTimestampType);
}

#[test]
fn event_log_accepts_any_declared_type() {
    let input = named_record(
        "Cart",
        vec![field("aggregate_id", &["Uuid"]), field("events", &["String"])],
    );
    assert!(aggregate_root(&input).is_ok());
}

#[test]
fn type_keywords_fold_case() {
    let input = named_record(
        "CartCreated",
        vec![field("id", &["UUID"]), field("timestamp", &["DATETIME"])],
    );
    assert!(domain_event(&input).is_ok());
}

#[test]
fn only_the_outermost_path_segment_is_inspected() {
    // The declared type `chrono::DateTime` has outer segment `chrono`,
    // which does not contain the timestamp keyword.
    let input = named_record(
        "CartCreated",
        vec![
            field("id", &["Uuid"]),
            field("timestamp", &["chrono", "DateTime"]),
        ],
    );
    let diagnostic = domain_event(&input).expect_err("derivation must reject");
    assert_eq!(diagnostic.kind, DiagnosticKind::WrongTimestampType);

    // The declared type `uuid::Uuid` has outer segment `uuid`, which does
    // contain the identity keyword.
    let input = named_record(
        "Cart",
        vec![field("id", &["uuid", "Uuid"]), field("events", &["Vec"])],
    );
    assert!(aggregate_root(&input).is_ok());
}

#[test]
fn non_path_types_match_no_keyword() {
    let input = named_record(
        "Cart",
        vec![field("id", &[]), field("events", &["Vec"])],
    );
    let diagnostic = aggregate_root(&input).expect_err("derivation must reject");
    assert_eq!(diagnostic.kind, DiagnosticKind::WrongIdentityType);
}

#[test]
fn empty_records_lack_every_role() {
    let input = named_record("Cart", vec![]);
    let diagnostic = aggregate_root(&input).expect_err("derivation must reject");
    assert_eq!(diagnostic.kind, DiagnosticKind::MissingIdentityField);
    let diagnostic = domain_event(&input).expect_err("derivation must reject");
    assert_eq!(diagnostic.kind, DiagnosticKind::MissingIdentityField);
}

#[test]
fn rendered_aggregate_root_implementation() {
    let input = named_record(
        "Cart",
        vec![field("cart_id", &["Uuid"]), field("events", &["Vec"])],
    );
    let generated = aggregate_root(&input).expect("derivation must accept");
    let expected = "impl AggregateRoot for Cart {\n    \
                    fn aggregate_id(&self) -> Uuid {\n        self.cart_id\n    }\n    \
                    fn events(&self) -> &Vec<Box<dyn DomainEvent>> {\n        &self.events\n    }\n    \
                    fn add_event(&mut self, event: Box<dyn DomainEvent>) {\n        self.events.push(event);\n    }\n    \
                    fn clear_events(&mut self) {\n        self.events.clear();\n    }\n}\n";
    assert_eq!(generated.render(), expected);
}

#[test]
fn rendered_domain_event_implementation() {
    let input = named_record(
        "CartCreated",
        vec![field("id", &["Uuid"]), field("timestamp", &["DateTime"])],
    );
    let generated = domain_event(&input).expect("derivation must accept");
    let expected = "impl DomainEvent for CartCreated {\n    \
                    fn id(&self) -> Uuid {\n        self.id\n    }\n    \
                    fn timestamp(&self) -> DateTime<Utc> {\n        self.timestamp\n    }\n}\n";
    assert_eq!(generated.render(), expected);
}
