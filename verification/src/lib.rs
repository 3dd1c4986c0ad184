//! A demand-driven producer/consumer dispatch protocol.
//!
//! Consumers advertise how many items they are willing to receive
//! ("demand"), producers generate items only in response to outstanding
//! demand, and the producer's dispatch algorithm matches produced items
//! to the correct waiting consumer while enforcing a system-wide demand
//! ceiling.
//!
//! This crate holds the protocol's state machines and the demand queue
//! with its dispatch algorithm; it performs no message delivery itself.
//! A host embeds the [`producer::Producer`] and [`consumer::Consumer`]
//! state machines in concurrent processes of its choosing, carries the
//! message types between them, and performs the sends that the state
//! machines return.

use vstd::prelude::*;

pub mod consumer;
pub mod producer;
pub mod queue;

verus! {

/// A number of items a consumer asks for or a producer is triggered with.
pub type DemandCount = usize;

/// Identifies one consumer process; unique per process, so two handles
/// are equal exactly when they name the same consumer.
pub type ConsumerHandle = u64;

/// Identifies one producer process; unique per process.
pub type ProducerHandle = u64;

} // verus!
