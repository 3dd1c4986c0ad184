//! Subscribe and demand-negotiation behavior of the producer.

use demand_stage::producer::{
    DemandMessage, DemandResponse, Producer, ProducerStage, SubscribeMessage,
};
use demand_stage::queue::{Demand, DemandQueue};

/// A stage that never produces anything.
struct NullStage;

impl ProducerStage for NullStage {
    type Output = u64;

    fn handle_demand(&mut self, _demand: usize) -> Vec<u64> {
        Vec::new()
    }
}

#[test]
fn subscribe_succeeds_and_is_idempotent() {
    let mut p = Producer::init(NullStage);
    assert_eq!(p.consumer_count(), 0);
    assert!(p.subscribe(SubscribeMessage(7)).is_ok());
    assert!(p.is_subscribed(7));
    assert_eq!(p.consumer_count(), 1);

    // Subscribing the same handle twice leaves exactly one entry.
    assert!(p.subscribe(SubscribeMessage(7)).is_ok());
    assert!(p.is_subscribed(7));
    assert_eq!(p.consumer_count(), 1);

    assert!(p.subscribe(SubscribeMessage(8)).is_ok());
    assert_eq!(p.consumer_count(), 2);
}

#[test]
fn unknown_consumer_is_rejected_without_queueing() {
    let mut p = Producer::init(NullStage);
    assert_eq!(
        p.queue_demand(DemandMessage(3, 5)),
        Err(DemandResponse::DontKnowYou)
    );
    assert_eq!(p.queue_len(), 0);
    assert_eq!(p.max_demand(), None);

    // Still rejected while others are subscribed.
    assert!(p.subscribe(SubscribeMessage(1)).is_ok());
    assert_eq!(
        p.queue_demand(DemandMessage(3, 5)),
        Err(DemandResponse::DontKnowYou)
    );
    assert_eq!(p.queue_len(), 0);
}

#[test]
fn first_accepted_count_becomes_the_ceiling() {
    let mut p = Producer::init(NullStage);
    assert!(p.subscribe(SubscribeMessage(1)).is_ok());

    // A rejected request does not set the ceiling.
    assert_eq!(
        p.queue_demand(DemandMessage(9, 50)),
        Err(DemandResponse::DontKnowYou)
    );
    assert_eq!(p.max_demand(), None);

    assert_eq!(p.queue_demand(DemandMessage(1, 5)), Ok(()));
    assert_eq!(p.max_demand(), Some(5));
    assert_eq!(p.queue_len(), 1);

    // A later request above the ceiling is rejected and the queue is untouched.
    assert_eq!(
        p.queue_demand(DemandMessage(1, 8)),
        Err(DemandResponse::ExceededMaxDemand)
    );
    assert_eq!(p.max_demand(), Some(5));
    assert_eq!(p.queue_len(), 1);
    assert_eq!(p.front_demand(), Some(Demand { count: 5, target: 1 }));

    // At or below the ceiling is accepted; the ceiling does not move.
    assert_eq!(p.queue_demand(DemandMessage(1, 5)), Ok(()));
    assert_eq!(p.queue_demand(DemandMessage(1, 3)), Ok(()));
    assert_eq!(p.max_demand(), Some(5));
    assert_eq!(p.queue_len(), 3);
}

#[test]
fn front_pair_ordering() {
    // Inserting counts 5 then 8: the front is the entry with count 8.
    let mut q = DemandQueue::new();
    q.insert(Demand { count: 5, target: 1 });
    q.insert(Demand { count: 8, target: 2 });
    assert_eq!(q.front(), Some(Demand { count: 8, target: 2 }));

    // Then inserting 3: the front remains the entry with count 8, since
    // 3 is compared against nothing but the then-current front.
    q.insert(Demand { count: 3, target: 3 });
    assert_eq!(q.front(), Some(Demand { count: 8, target: 2 }));
    assert_eq!(q.len(), 3);

    // The displaced entry sits in second position.
    assert_eq!(q.pop_front(), Some(Demand { count: 8, target: 2 }));
    assert_eq!(q.pop_front(), Some(Demand { count: 3, target: 3 }));
    assert_eq!(q.pop_front(), Some(Demand { count: 5, target: 1 }));
    assert_eq!(q.pop_front(), None);
}

#[test]
fn equal_counts_keep_the_earlier_front() {
    // A new entry becomes the front only on a strictly greater count.
    let mut q = DemandQueue::new();
    q.insert(Demand { count: 5, target: 1 });
    q.insert(Demand { count: 5, target: 2 });
    assert_eq!(q.front(), Some(Demand { count: 5, target: 1 }));
    assert_eq!(q.len(), 2);
}

#[test]
fn empty_queue_operations() {
    let mut q = DemandQueue::new();
    assert_eq!(q.len(), 0);
    assert_eq!(q.front(), None);
    assert_eq!(q.pop_front(), None);
    q.insert(Demand { count: 4, target: 9 });
    assert_eq!(q.len(), 1);
    assert_eq!(q.front(), Some(Demand { count: 4, target: 9 }));
}

#[test]
fn ping_changes_nothing() {
    let mut p = Producer::init(NullStage);
    assert!(p.subscribe(SubscribeMessage(1)).is_ok());
    assert_eq!(p.queue_demand(DemandMessage(1, 2)), Ok(()));
    p.ping(demand_stage::producer::Ping);
    assert_eq!(p.consumer_count(), 1);
    assert_eq!(p.max_demand(), Some(2));
    assert_eq!(p.queue_len(), 1);
}
