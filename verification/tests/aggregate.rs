use chrono::{DateTime, Utc};
use ddd_rs::aggregate_root::{AggregateRoot, BasicAggregate};
use ddd_rs::event::{BasicEvent, DomainEvent};
use ddd_rs::persistence::{ToDomain, ToPersistence};
use downcast_rs::Downcast;
use uuid::Uuid;

type BoxedEvent = Box<dyn DomainEvent<Timestamp = DateTime<Utc>>>;

struct TestAggregateRoot {
    aggregate_id: Uuid,
    events: Vec<BoxedEvent>,
}

// Written out exactly as the engine synthesizes it for this record.
impl AggregateRoot for TestAggregateRoot {
    type Event = BoxedEvent;

    fn aggregate_id(&self) -> Uuid {
        self.aggregate_id
    }

    fn events(&self) -> &Vec<BoxedEvent> {
        &self.events
    }

    fn add_event(&mut self, event: BoxedEvent) {
        self.events.push(event);
    }

    fn clear_events(&mut self) {
        self.events.clear();
    }
}

#[derive(Debug, Clone, Copy, PartialEq)]
struct TestEvent {
    id: Uuid,
    timestamp: DateTime<Utc>,
}

// Written out exactly as the engine synthesizes it for this record.
impl DomainEvent for TestEvent {
    type Timestamp = DateTime<Utc>;

    fn id(&self) -> Uuid {
        self.id
    }

    fn timestamp(&self) -> DateTime<Utc> {
        self.timestamp
    }
}

impl Default for TestEvent {
    fn default() -> Self {
        Self {
            id: Uuid::new_v4(),
            timestamp: Utc::now(),
        }
    }
}

fn setup() -> TestAggregateRoot {
    TestAggregateRoot {
        aggregate_id: Uuid::new_v4(),
        events: vec![],
    }
}

#[test]
fn test_aggregate_root_aggregate_id() {
    let ctx_aggregate_root = setup();
    assert!(!ctx_aggregate_root.aggregate_id.is_nil())
}

#[test]
fn test_aggregate_root_clear_events() {
    let mut ctx_aggregate_root = setup();
    ctx_aggregate_root.clear_events();
    assert!(ctx_aggregate_root.events.is_empty())
}

#[test]
fn test_aggregate_root_add_event() {
    let mut ctx_aggregate_root = setup();
    let len = ctx_aggregate_root.events.len();
    let event = Box::new(TestEvent::default());

    ctx_aggregate_root.add_event(event);
    assert_eq!(ctx_aggregate_root.events.len(), len + 1);
}

trait DowncastEvent: DomainEvent<Timestamp = DateTime<Utc>> + Downcast {}

impl DowncastEvent for TestEvent {}

#[test]
fn test_downcast() {
    let event = Box::new(TestEvent::default());
    let events: Vec<Box<dyn DowncastEvent>> = vec![event];

    for event in events.iter() {
        if let Some(_abc) = event.as_ref().as_any().downcast_ref::<TestEvent>() {
            continue;
        }

        panic!("event could not be downcasted");
    }
}

#[derive(Debug, PartialEq)]
struct OtherEvent {
    id: Uuid,
    timestamp: DateTime<Utc>,
}

impl DomainEvent for OtherEvent {
    type Timestamp = DateTime<Utc>;

    fn id(&self) -> Uuid {
        self.id
    }

    fn timestamp(&self) -> DateTime<Utc> {
        self.timestamp
    }
}

impl DowncastEvent for OtherEvent {}

#[test]
fn downcast_to_another_concrete_type_yields_nothing() {
    let sample = TestEvent::default();
    let stored: Box<dyn DowncastEvent> = Box::new(sample);
    assert!(stored.as_ref().as_any().downcast_ref::<OtherEvent>().is_none());
    let recovered = stored
        .as_ref()
        .as_any()
        .downcast_ref::<TestEvent>()
        .expect("recovery to the stored type must succeed");
    assert_eq!(*recovered, sample);
}

#[test]
fn basic_aggregate_returns_stored_identity() {
    let id = Uuid::new_v4();
    let aggregate: BasicAggregate<TestEvent> = BasicAggregate::new(id);
    assert_eq!(aggregate.aggregate_id(), id);
    assert!(aggregate.events().is_empty());
}

#[test]
fn basic_aggregate_add_event_appends_exactly_the_given_event() {
    let mut aggregate: BasicAggregate<TestEvent> = BasicAggregate::new(Uuid::new_v4());
    let first = TestEvent::default();
    let second = TestEvent::default();
    aggregate.add_event(first);
    assert_eq!(aggregate.events().len(), 1);
    let len = aggregate.events().len();
    aggregate.add_event(second);
    assert_eq!(aggregate.events().len(), len + 1);
    assert_eq!(*aggregate.events().last().unwrap(), second);
}

#[test]
fn basic_aggregate_clear_events_empties_the_log() {
    let id = Uuid::new_v4();
    let mut aggregate: BasicAggregate<TestEvent> = BasicAggregate::new(id);
    aggregate.add_event(TestEvent::default());
    aggregate.add_event(TestEvent::default());
    aggregate.clear_events();
    assert!(aggregate.events().is_empty());
    assert_eq!(aggregate.aggregate_id(), id);
}

#[test]
fn basic_event_returns_stored_fields_unchanged() {
    let id = Uuid::new_v4();
    let now = Utc::now();
    let event = BasicEvent {
        id,
        timestamp: now,
    };
    assert_eq!(event.id(), id);
    assert_eq!(event.timestamp(), now);
}

struct CartDao {
    id: Uuid,
}

struct Cart {
    id: Uuid,
}

impl ToPersistence<CartDao> for Cart {
    fn to_persistence(&self) -> CartDao {
        CartDao { id: self.id }
    }
}

impl ToDomain<Cart> for CartDao {
    fn to_domain(persistence: &Self) -> Cart {
        Cart {
            id: persistence.id,
        }
    }
}

#[test]
fn persistence_mapping_round_trips() {
    let cart = Cart { id: Uuid::new_v4() };
    let dao = cart.to_persistence();
    let back = CartDao::to_domain(&dao);
    assert_eq!(back.id, cart.id);
}
