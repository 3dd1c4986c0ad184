//! The consumer's state machine: its outstanding-demand counter and the
//! inner state that delivered batches are applied to.
//!
//! The consumer drives the negotiation protocol against a producer: it
//! subscribes, asks for demand, and applies whatever batches arrive.
//! The synchronous requests themselves are the host's affair; the
//! consumer's handlers here decide what each reply does to the local
//! state and which trigger, if any, to send next.

use core::marker::PhantomData;

use vstd::prelude::*;

use crate::producer::Ask;
use crate::producer::DemandResponse;
use crate::DemandCount;
use crate::ProducerHandle;

verus! {

/// Asks the consumer to subscribe itself to the named producer.
#[derive(Clone, Copy, PartialEq, Eq, Structural, Debug)]
pub struct SubscribeToMessage(pub ProducerHandle);

/// Asks the consumer to negotiate demand: request that the named
/// producer queue the given count for this consumer, and on success
/// trigger production.
#[derive(Clone, Copy, PartialEq, Eq, Structural, Debug)]
pub struct AskDemandMessage(pub ProducerHandle, pub DemandCount);

/// The consumption capability a host supplies: applies a delivered
/// batch to the implementing state, communicating only through its own
/// mutation.
pub trait ConsumerStage<I> {
    fn handle_event(&mut self, event: Vec<I>);
}

/// The consumer: how much demand it currently has outstanding, and the
/// inner state its handler consumes batches against.
pub struct Consumer<I, C> {
    demand: DemandCount,
    state: C,
    _phantom_data: PhantomData<I>,
}

impl<I, C> Consumer<I, C> {
    /// The outstanding-demand counter.
    pub closed spec fn spec_demand(&self) -> DemandCount {
        self.demand
    }

    /// The inner state.
    pub closed spec fn spec_state(&self) -> C {
        self.state
    }

    /// Reads the outstanding-demand counter.
    pub fn demand(&self) -> (d: DemandCount)
        ensures
            d == self.spec_demand(),
    {
        self.demand
    }

    /// Reads the inner state.
    pub fn inner_state(&self) -> (s: &C)
        ensures
            *s == self.spec_state(),
    {
        &self.state
    }

    /// Handles the reply to a demand negotiation asked for by `msg`.
    ///
    /// Only on success does the consumer record the count as its
    /// outstanding demand and hand back the production trigger to send.
    /// On a rejection nothing changes and no trigger is sent.
    pub fn handle_ask_demand(&mut self, msg: AskDemandMessage, response: Result<
        (),
        DemandResponse,
    >) -> (trigger: Option<Ask>)
        ensures
            response is Ok ==> final(self).spec_demand() == msg.1 && final(self).spec_state()
                == old(self).spec_state() && trigger == Some(Ask(msg.1)),
            response is Err ==> *final(self) == *old(self) && trigger is None,
    {
        let AskDemandMessage(_producer, demand) = msg;
        if response.is_ok() {
            self.demand = demand;
            Some(Ask(demand))
        } else {
            None
        }
    }
}

impl<I, C: Default> Consumer<I, C> {
    /// A consumer around the given inner state, or around `C`'s default
    /// where none is given. The outstanding-demand counter starts at
    /// 100.
    pub fn with_optional_state(state: Option<C>) -> (c: Self)
        ensures
            c.spec_demand() == 100,
            state matches Some(s) ==> c.spec_state() == s,
    {
        let inner = match state {
            Some(s) => s,
            None => C::default(),
        };
        Consumer { demand: 100, state: inner, _phantom_data: PhantomData }
    }
}

impl<I, C: ConsumerStage<I>> Consumer<I, C> {
    /// Handles a delivered batch: forwards it to the inner state's
    /// handler. The outstanding-demand counter is untouched; what the
    /// batch does to the inner state is the handler's affair.
    pub fn handle(&mut self, events: Vec<I>)
        ensures
            final(self).spec_demand() == old(self).spec_demand(),
    {
        self.state.handle_event(events);
    }
}

} // verus!
