//! The producer's state machine: the consumer set, the demand ceiling,
//! the demand queue, and the dispatch algorithm that pairs produced
//! items with queued demand.
//!
//! The producer owns its state exclusively; a host drives it by calling
//! one handler per received message and performing the sends the
//! handlers return.

use std::collections::HashSet;

use vstd::prelude::*;

use crate::queue::Demand;
use crate::queue::DemandQueue;
use crate::queue::insert_model;
use crate::ConsumerHandle;
use crate::DemandCount;

verus! {

broadcast use vstd::std_specs::hash::group_hash_axioms;

/// Asks the producer to add the named consumer to its consumer set.
#[derive(Clone, Copy, PartialEq, Eq, Structural, Debug)]
pub struct SubscribeMessage(pub ConsumerHandle);

/// Asks the producer to queue demand: the named consumer is willing to
/// receive the given number of items.
#[derive(Clone, Copy, PartialEq, Eq, Structural, Debug)]
pub struct DemandMessage(pub ConsumerHandle, pub DemandCount);

/// Why a demand request was rejected.
#[derive(Clone, Copy, PartialEq, Eq, Structural, Debug)]
pub enum DemandResponse {
    /// The requested count exceeds the producer's fixed ceiling.
    ExceededMaxDemand,
    /// The requesting handle is not in the producer's consumer set.
    DontKnowYou,
}

/// The asynchronous production trigger: produce and dispatch in chunks
/// of the given size.
#[derive(Clone, Copy, PartialEq, Eq, Structural, Debug)]
pub struct Ask(pub DemandCount);

/// A diagnostic request; handling it changes nothing.
#[derive(Clone, Copy, PartialEq, Eq, Structural, Debug)]
pub struct Ping;

/// One delivery the dispatch algorithm decided on: `events` are to be
/// sent to the consumer named by `target`.
#[derive(Debug)]
pub struct Batch<I> {
    pub target: ConsumerHandle,
    pub events: Vec<I>,
}

/// The production capability a host supplies: turns a requested count
/// into a sequence of produced values. An implementation may return
/// more or fewer items than requested; the dispatch algorithm does not
/// assume an exact match.
pub trait ProducerStage {
    type Output;

    fn handle_demand(&mut self, demand: DemandCount) -> Vec<Self::Output>;
}

/// The observable producer state: which consumers are subscribed, the
/// demand ceiling (fixed by the first accepted request), and the queue
/// of pending demand entries, front at index 0.
#[verifier::ext_equal]
pub ghost struct ProducerModel {
    pub consumers: Set<ConsumerHandle>,
    pub ceiling: Option<DemandCount>,
    pub queue: Seq<Demand>,
}

/// What subscribing does: the handle joins the consumer set; the
/// ceiling and the queue are untouched. Adding a present handle
/// changes nothing, so subscribing is idempotent.
pub open spec fn subscribe_model(m: ProducerModel, consumer: ConsumerHandle) -> ProducerModel {
    ProducerModel { consumers: m.consumers.insert(consumer), ceiling: m.ceiling, queue: m.queue }
}

/// What a demand request does, and its reply.
///
/// A handle outside the consumer set is rejected with `DontKnowYou` and
/// the state is untouched. Otherwise, if no ceiling is set yet it
/// becomes the requested count, so a first request is always accepted;
/// a count above the set ceiling is rejected with `ExceededMaxDemand`
/// and the state is untouched; an accepted request inserts a new entry
/// by the front-pair policy.
pub open spec fn queue_demand_model(
    m: ProducerModel,
    consumer: ConsumerHandle,
    count: DemandCount,
) -> (ProducerModel, Result<(), DemandResponse>) {
    if !m.consumers.contains(consumer) {
        (m, Err(DemandResponse::DontKnowYou))
    } else {
        let ceiling = match m.ceiling {
            Some(c) => c,
            None => count,
        };
        if count > ceiling {
            (m, Err(DemandResponse::ExceededMaxDemand))
        } else {
            let inserted = ProducerModel {
                consumers: m.consumers,
                ceiling: Some(ceiling),
                queue: insert_model(m.queue, Demand { count, target: consumer }),
            };
            (inserted, Ok(()))
        }
    }
}

/// The consecutive chunks of size `n` that `items` falls into; the last
/// chunk is shorter when the length is not a multiple of `n`. No chunks
/// come of an empty sequence. Meaningful for `n >= 1`; for `n == 0` the
/// result is empty.
pub open spec fn chunks_model<I>(items: Seq<I>, n: DemandCount) -> Seq<Seq<I>>
    decreases items.len(),
{
    if n < 1 || items.len() == 0 {
        Seq::empty()
    } else if items.len() <= n {
        seq![items]
    } else {
        seq![items.take(n as int)] + chunks_model(items.skip(n as int), n)
    }
}

/// What one chunk does to the queue, and the send it causes, if any.
///
/// An empty queue swallows the chunk: nothing is sent, nothing changes.
/// Otherwise the front entry is popped; if its count covers the chunk,
/// the chunk goes to that entry's consumer and the entry, its count
/// decremented by the chunk's length, is re-inserted by the front-pair
/// policy. If its count falls short of the chunk, nothing is sent and
/// the entry is not re-queued: the chunk and the entry are both lost.
pub open spec fn dispatch_step<I>(q: Seq<Demand>, chunk: Seq<I>) -> (
    Seq<Demand>,
    Option<(ConsumerHandle, Seq<I>)>,
) {
    if q.len() == 0 {
        (q, None)
    } else {
        let front = q[0];
        let rest = q.skip(1);
        if front.count >= chunk.len() {
            let served = Demand {
                count: (front.count - chunk.len()) as usize,
                target: front.target,
            };
            (insert_model(rest, served), Some((front.target, chunk)))
        } else {
            (rest, None)
        }
    }
}

/// What dispatching a sequence of chunks does: each chunk in order is
/// matched against the queue by `dispatch_step`; the result is the
/// final queue and the sends, in chunk order.
pub open spec fn dispatch_model<I>(q: Seq<Demand>, chunks: Seq<Seq<I>>) -> (
    Seq<Demand>,
    Seq<(ConsumerHandle, Seq<I>)>,
)
    decreases chunks.len(),
{
    if chunks.len() == 0 {
        (q, Seq::empty())
    } else {
        let step = dispatch_step(q, chunks[0]);
        let rest = dispatch_model(step.0, chunks.skip(1));
        let sent = match step.1 {
            Some(s) => seq![s],
            None => Seq::empty(),
        };
        (rest.0, sent + rest.1)
    }
}

/// The sends a sequence of batches stands for: each batch as the pair
/// of its target and its events.
pub open spec fn batches_view<I>(batches: Seq<Batch<I>>) -> Seq<(ConsumerHandle, Seq<I>)> {
    batches.map_values(|b: Batch<I>| (b.target, b.events@))
}

/// The producer: the production stage, the set of subscribed consumers,
/// the demand ceiling, and the ordered demand queue.
pub struct Producer<S: ProducerStage> {
    demands: DemandQueue,
    max_demand: Option<DemandCount>,
    consumers: HashSet<ConsumerHandle>,
    stage: S,
}

impl<S: ProducerStage> View for Producer<S> {
    type V = ProducerModel;

    closed spec fn view(&self) -> ProducerModel {
        ProducerModel { consumers: self.consumers@, ceiling: self.max_demand, queue: self.demands@ }
    }
}

impl<S: ProducerStage> Producer<S> {
    /// A fresh producer: no consumers, no ceiling, an empty queue.
    pub fn init(stage: S) -> (p: Self)
        ensures
            p@.consumers == Set::<ConsumerHandle>::empty(),
            p@.ceiling is None,
            p@.queue == Seq::<Demand>::empty(),
    {
        Producer {
            demands: DemandQueue::new(),
            max_demand: None,
            consumers: HashSet::new(),
            stage,
        }
    }

    /// Handles a subscribe request: adds the handle to the consumer set
    /// and always succeeds. Subscribing a handle twice leaves the set
    /// as one subscription would.
    pub fn subscribe(&mut self, msg: SubscribeMessage) -> (r: Result<(), ()>)
        ensures
            r == Ok::<(), ()>(()),
            final(self)@ == subscribe_model(old(self)@, msg.0),
    {
        let SubscribeMessage(consumer) = msg;
        self.consumers.insert(consumer);
        proof {
            assert(self@ =~= subscribe_model(old(self)@, msg.0));
        }
        Ok(())
    }

    /// Handles a demand request: the state moves, and the reply is,
    /// exactly as `queue_demand_model` says.
    pub fn queue_demand(&mut self, msg: DemandMessage) -> (r: Result<(), DemandResponse>)
        ensures
            final(self)@ == queue_demand_model(old(self)@, msg.0, msg.1).0,
            r == queue_demand_model(old(self)@, msg.0, msg.1).1,
    {
        let DemandMessage(consumer, demand_count) = msg;
        if !self.consumers.contains(&consumer) {
            return Err(DemandResponse::DontKnowYou);
        }

        let ceiling = match self.max_demand {
            Some(c) => c,
            None => {
                self.max_demand = Some(demand_count);
                demand_count
            },
        };
        if demand_count > ceiling {
            return Err(DemandResponse::ExceededMaxDemand);
        }

        self.demands.insert(Demand { count: demand_count, target: consumer });
        proof {
            assert(self@ =~= queue_demand_model(old(self)@, msg.0, msg.1).0);
        }
        Ok(())
    }

    /// Matches already-produced items against the queued demand.
    ///
    /// The items are split into consecutive chunks of `chunk_size` (the
    /// last possibly shorter), and each chunk in order is dispatched by
    /// `dispatch_step`: the queue moves, and the returned batches are
    /// the sends, exactly as `dispatch_model` says. The consumer set
    /// and the ceiling are untouched.
    pub fn dispatch_items(&mut self, items: Vec<S::Output>, chunk_size: DemandCount) -> (batches:
        Vec<Batch<S::Output>>)
        requires
            chunk_size >= 1,
        ensures
            final(self)@.consumers == old(self)@.consumers,
            final(self)@.ceiling == old(self)@.ceiling,
            final(self)@.queue == dispatch_model(old(self)@.queue, chunks_model(items@, chunk_size)).0,
            batches_view(batches@) == dispatch_model(old(self)@.queue, chunks_model(items@, chunk_size)).1,
    {
        let ghost consumers0 = self@.consumers;
        let ghost ceiling0 = self@.ceiling;
        let ghost q0 = self@.queue;
        let ghost all = chunks_model(items@, chunk_size);

        let mut remaining = items;
        let mut batches: Vec<Batch<S::Output>> = Vec::new();

        while remaining.len() > 0
            invariant
                chunk_size >= 1,
                self@.consumers == consumers0,
                self@.ceiling == ceiling0,
                dispatch_model(q0, all).0 == dispatch_model(
                    self@.queue,
                    chunks_model(remaining@, chunk_size),
                ).0,
                dispatch_model(q0, all).1 == batches_view(batches@) + dispatch_model(
                    self@.queue,
                    chunks_model(remaining@, chunk_size),
                ).1,
            decreases remaining@.len(),
        {
            let ghost rem_pre = remaining@;
            let ghost q_pre = self@.queue;
            let ghost batches_pre = batches@;

            let take = if chunk_size < remaining.len() {
                chunk_size
            } else {
                remaining.len()
            };
            let mut chunk = remaining;
            remaining = chunk.split_off(take);
            let ghost c = chunk@;

            proof {
                assert(rem_pre.take(rem_pre.len() as int) =~= rem_pre);
                assert(chunks_model(rem_pre, chunk_size) =~= seq![c] + chunks_model(
                    remaining@,
                    chunk_size,
                ));
                assert((seq![c] + chunks_model(remaining@, chunk_size)).skip(1) =~= chunks_model(
                    remaining@,
                    chunk_size,
                ));
            }

            let clen = chunk.len();
            let popped = self.demands.pop_front();
            match popped {
                None => {
                },
                Some(front) => {
                    if front.count >= clen {
                        let served = Demand { count: front.count - clen, target: front.target };
                        batches.push(Batch { target: front.target, events: chunk });
                        self.demands.insert(served);
                    }
                },
            }

            proof {
                let step = dispatch_step(q_pre, c);
                assert(self@.queue == step.0);
                match step.1 {
                    Some(s) => {
                        assert(batches_view(batches@) =~= batches_view(batches_pre) + seq![s]);
                    },
                    None => {
                        assert(batches_view(batches@) == batches_view(batches_pre));
                    },
                }
                assert(dispatch_model(q0, all).1 == batches_view(batches@) + dispatch_model(
                    self@.queue,
                    chunks_model(remaining@, chunk_size),
                ).1) by {
                    let sent: Seq<(ConsumerHandle, Seq<S::Output>)> = match step.1 {
                        Some(s) => seq![s],
                        None => Seq::empty(),
                    };
                    assert(dispatch_model(q_pre, chunks_model(rem_pre, chunk_size)).1 == sent
                        + dispatch_model(self@.queue, chunks_model(remaining@, chunk_size)).1);
                    assert(batches_view(batches_pre) + (sent + dispatch_model(
                        self@.queue,
                        chunks_model(remaining@, chunk_size),
                    ).1) =~= batches_view(batches@) + dispatch_model(
                        self@.queue,
                        chunks_model(remaining@, chunk_size),
                    ).1);
                }
            }
        }

        proof {
            assert(chunks_model(remaining@, chunk_size) =~= Seq::<Seq<S::Output>>::empty());
            assert(batches_view(batches@) + Seq::<(ConsumerHandle, Seq<S::Output>)>::empty()
                =~= batches_view(batches@));
        }
        batches
    }

    /// Handles the production trigger: asks the stage for items and
    /// dispatches them in chunks of the trigger's count.
    ///
    /// What the stage returns is the stage's own affair; whatever items
    /// came back, the queue moves and the returned batches are the
    /// sends exactly as `dispatch_model` says of those items. The
    /// consumer set and the ceiling are untouched.
    pub fn dispatch(&mut self, msg: Ask) -> (batches: Vec<Batch<S::Output>>)
        requires
            msg.0 >= 1,
        ensures
            final(self)@.consumers == old(self)@.consumers,
            final(self)@.ceiling == old(self)@.ceiling,
            exists|items: Seq<S::Output>|
                {
                    let run = dispatch_model(old(self)@.queue, #[trigger] chunks_model(items, msg.0));
                    final(self)@.queue == run.0 && batches_view(batches@) == run.1
                },
    {
        let Ask(demand) = msg;
        let items = self.stage.handle_demand(demand);
        let ghost produced = items@;
        let batches = self.dispatch_items(items, demand);
        proof {
            let run = dispatch_model(old(self)@.queue, chunks_model(produced, msg.0));
            assert(self@.queue == run.0 && batches_view(batches@) == run.1);
        }
        batches
    }

    /// Handles a diagnostic request: nothing changes, nothing is
    /// reported beyond the fact that the producer is reachable.
    pub fn ping(&self, _msg: Ping) {
    }

    /// Reads the demand ceiling.
    pub fn max_demand(&self) -> (r: Option<DemandCount>)
        ensures
            r == self@.ceiling,
    {
        self.max_demand
    }

    /// Reads the front of the demand queue without removing it.
    pub fn front_demand(&self) -> (d: Option<Demand>)
        ensures
            self@.queue.len() == 0 ==> d is None,
            self@.queue.len() > 0 ==> d == Some(self@.queue[0]),
    {
        self.demands.front()
    }

    /// How many demand entries are queued.
    pub fn queue_len(&self) -> (n: usize)
        ensures
            n == self@.queue.len(),
    {
        self.demands.len()
    }

    /// Whether the named consumer is in the consumer set.
    pub fn is_subscribed(&self, consumer: ConsumerHandle) -> (r: bool)
        ensures
            r == self@.consumers.contains(consumer),
    {
        self.consumers.contains(&consumer)
    }

    /// How many consumers are subscribed.
    pub fn consumer_count(&self) -> (n: usize)
        ensures
            n == self@.consumers.len(),
    {
        self.consumers.len()
    }
}

/// One demand request: who asks, and for how many items.
pub ghost struct DemandRequest {
    pub consumer: ConsumerHandle,
    pub count: DemandCount,
}

/// The producer state after a sequence of demand requests, applied in
/// order; the replies are dropped.
pub open spec fn run_demands(m: ProducerModel, reqs: Seq<DemandRequest>) -> ProducerModel
    decreases reqs.len(),
{
    if reqs.len() == 0 {
        m
    } else {
        run_demands(queue_demand_model(m, reqs[0].consumer, reqs[0].count).0, reqs.skip(1))
    }
}

/// The count of the first request in `reqs` that the producer accepts,
/// or `None` where it accepts none.
pub open spec fn first_accepted_count(m: ProducerModel, reqs: Seq<DemandRequest>) -> Option<
    DemandCount,
>
    decreases reqs.len(),
{
    if reqs.len() == 0 {
        None
    } else {
        let step = queue_demand_model(m, reqs[0].consumer, reqs[0].count);
        if step.1 is Ok {
            Some(reqs[0].count)
        } else {
            first_accepted_count(step.0, reqs.skip(1))
        }
    }
}

/// Law: a demand request never changes a ceiling that is already set,
/// whether the request is accepted or rejected.
pub proof fn lemma_ceiling_fixed(m: ProducerModel, consumer: ConsumerHandle, count: DemandCount)
    requires
        m.ceiling is Some,
    ensures
        queue_demand_model(m, consumer, count).0.ceiling == m.ceiling,
{
}

/// Law: over any sequence of demand requests, a ceiling that is already
/// set never changes.
pub proof fn lemma_ceiling_fixed_over_run(m: ProducerModel, reqs: Seq<DemandRequest>)
    requires
        m.ceiling is Some,
    ensures
        run_demands(m, reqs).ceiling == m.ceiling,
    decreases reqs.len(),
{
    if reqs.len() > 0 {
        let step = queue_demand_model(m, reqs[0].consumer, reqs[0].count);
        lemma_ceiling_fixed(m, reqs[0].consumer, reqs[0].count);
        lemma_ceiling_fixed_over_run(step.0, reqs.skip(1));
    }
}

/// Law: for any sequence of demand requests to a producer whose ceiling
/// is not yet set, the first accepted request's count becomes the
/// ceiling, and the ceiling stays unset where none is accepted.
pub proof fn lemma_ceiling_is_first_accepted(m: ProducerModel, reqs: Seq<DemandRequest>)
    requires
        m.ceiling is None,
    ensures
        run_demands(m, reqs).ceiling == first_accepted_count(m, reqs),
    decreases reqs.len(),
{
    if reqs.len() > 0 {
        let step = queue_demand_model(m, reqs[0].consumer, reqs[0].count);
        if step.1 is Ok {
            lemma_ceiling_fixed_over_run(step.0, reqs.skip(1));
        } else {
            lemma_ceiling_is_first_accepted(step.0, reqs.skip(1));
        }
    }
}

/// Law: once the ceiling is set, a request above it from a subscribed
/// consumer is rejected with `ExceededMaxDemand` and leaves the state —
/// the queue in particular — unchanged.
pub proof fn lemma_ceiling_exceeded_rejected(
    m: ProducerModel,
    consumer: ConsumerHandle,
    count: DemandCount,
    c: DemandCount,
)
    requires
        m.ceiling == Some(c),
        m.consumers.contains(consumer),
        count > c,
    ensures
        queue_demand_model(m, consumer, count) == (
            m,
            Err::<(), DemandResponse>(DemandResponse::ExceededMaxDemand),
        ),
{
}

/// Law: for any sequence of demand requests to a fresh producer whose
/// first accepted count is `c`, a further request for more than `c`
/// from a subscribed consumer is rejected with `ExceededMaxDemand` and
/// leaves the state — the queue in particular — unchanged.
pub proof fn lemma_ceiling_monotonic(
    m: ProducerModel,
    reqs: Seq<DemandRequest>,
    consumer: ConsumerHandle,
    count: DemandCount,
    c: DemandCount,
)
    requires
        m.ceiling is None,
        first_accepted_count(m, reqs) == Some(c),
        run_demands(m, reqs).consumers.contains(consumer),
        count > c,
    ensures
        queue_demand_model(run_demands(m, reqs), consumer, count) == (
            run_demands(m, reqs),
            Err::<(), DemandResponse>(DemandResponse::ExceededMaxDemand),
        ),
{
    lemma_ceiling_is_first_accepted(m, reqs);
    lemma_ceiling_exceeded_rejected(run_demands(m, reqs), consumer, count, c);
}

/// Law: a demand request from a handle outside the consumer set is
/// rejected with `DontKnowYou` and leaves the state — the queue in
/// particular — unchanged.
pub proof fn lemma_unknown_consumer_rejected(
    m: ProducerModel,
    consumer: ConsumerHandle,
    count: DemandCount,
)
    requires
        !m.consumers.contains(consumer),
    ensures
        queue_demand_model(m, consumer, count) == (
            m,
            Err::<(), DemandResponse>(DemandResponse::DontKnowYou),
        ),
{
}

/// Law: subscribing the same handle twice leaves the consumer set — and
/// the whole state — exactly as one subscription does.
pub proof fn lemma_subscribe_idempotent(m: ProducerModel, consumer: ConsumerHandle)
    ensures
        subscribe_model(subscribe_model(m, consumer), consumer) == subscribe_model(m, consumer),
{
    assert(subscribe_model(subscribe_model(m, consumer), consumer).consumers
        =~= subscribe_model(m, consumer).consumers);
    assert(subscribe_model(subscribe_model(m, consumer), consumer) =~= subscribe_model(m, consumer));
}

/// Law: with a single queued entry of count `n` and exactly `n`
/// produced items dispatched with trigger `n`, exactly one batch
/// holding all `n` items goes to that entry's consumer, and the entry
/// is re-queued with a remaining count of 0.
pub proof fn lemma_exact_dispatch<I>(target: ConsumerHandle, n: DemandCount, items: Seq<I>)
    requires
        n >= 1,
        items.len() == n,
    ensures
        ({
            let run = dispatch_model(seq![Demand { count: n, target }], chunks_model(items, n));
            run.1 == seq![(target, items)] && run.0 == seq![Demand { count: 0, target }]
        }),
{
    let q = seq![Demand { count: n, target }];
    let chunks = chunks_model(items, n);
    assert(chunks =~= seq![items]);
    assert(chunks.skip(1) =~= Seq::<Seq<I>>::empty());
    let step = dispatch_step(q, items);
    assert(q.skip(1) =~= Seq::<Demand>::empty());
    assert(step.0 =~= seq![Demand { count: 0, target }]);
    assert(step.1 == Some((target, items)));
    assert(dispatch_model(step.0, chunks.skip(1)) == (
        step.0,
        Seq::<(ConsumerHandle, Seq<I>)>::empty(),
    ));
    assert(seq![(target, items)] + Seq::<(ConsumerHandle, Seq<I>)>::empty() =~= seq![
        (target, items),
    ]);
    assert(dispatch_model(q, chunks).1 =~= seq![(target, items)]);
}

/// Law: the chunks of `items` concatenate back to `items` exactly:
/// chunking drops no item, duplicates none, and keeps their order, so
/// each produced item belongs to exactly one chunk.
pub proof fn lemma_chunks_partition_items<I>(items: Seq<I>, n: DemandCount)
    requires
        n >= 1,
    ensures
        chunks_model(items, n).flatten() == items,
    decreases items.len(),
{
    let chunks = chunks_model(items, n);
    if items.len() == 0 {
        assert(chunks.flatten() =~= items);
    } else if items.len() <= n {
        assert(chunks =~= seq![items]);
        assert(chunks.drop_first() =~= Seq::<Seq<I>>::empty());
        assert(Seq::<Seq<I>>::empty().flatten() == Seq::<I>::empty());
        assert(chunks.flatten() =~= items);
    } else {
        lemma_chunks_partition_items(items.skip(n as int), n);
        assert(chunks.first() == items.take(n as int));
        assert(chunks.drop_first() =~= chunks_model(items.skip(n as int), n));
        assert(chunks.flatten() =~= items.take(n as int) + items.skip(n as int));
        assert(items.take(n as int) + items.skip(n as int) =~= items);
    }
}

/// Law: when the front entry's count falls short of the chunk, the
/// chunk is delivered nowhere and the entry leaves the queue — both the
/// produced values and the consumer's position are lost for the cycle.
pub proof fn lemma_underrun_drops<I>(q: Seq<Demand>, chunk: Seq<I>)
    requires
        q.len() > 0,
        q[0].count < chunk.len(),
    ensures
        dispatch_step(q, chunk) == (q.skip(1), None::<(ConsumerHandle, Seq<I>)>),
{
}

} // verus!
