use std::sync::Arc;

use vstd::prelude::*;

verus! {

/// The brief identity of a processed block, as the runtime reports it, and
/// whether a proof came with it.
#[derive(Clone, Copy, Debug, PartialEq, Eq, Structural)]
pub struct BlockNotice {
    pub workchain: i32,
    pub shard: u64,
    pub seqno: u32,
    pub gen_utime: u32,
    pub has_proof: bool,
}

/// A failure reported by a subscriber for one block. It is kept at the
/// dispatch boundary and reaches no other subscriber.
#[derive(Clone, Copy, Debug, PartialEq, Eq, Structural)]
pub struct SubscriberError {
    pub seqno: u32,
}

/// The engine's own subscriber: it accepts every block and keeps nothing.
pub struct TonSubscriber {}

impl TonSubscriber {
    pub fn new() -> (r: Arc<TonSubscriber>) {
        Arc::new(TonSubscriber {  })
    }

    pub fn process_block(&self, notice: &BlockNotice) -> (r: Result<(), SubscriberError>)
        ensures
            r == Ok::<(), SubscriberError>(()),
    {
        Ok(())
    }
}

/// A subscriber whose blocks are recorded in the log by the caller; it
/// accepts every block.
pub struct LoggerSubscriber {}

impl LoggerSubscriber {
    pub fn new() -> (r: LoggerSubscriber) {
        LoggerSubscriber {  }
    }

    pub fn process_block(&self, notice: &BlockNotice) -> (r: Result<(), SubscriberError>)
        ensures
            r == Ok::<(), SubscriberError>(()),
    {
        Ok(())
    }
}

/// One registered subscriber, of either kind.
pub enum Subscriber {
    Ton(Arc<TonSubscriber>),
    Logger(LoggerSubscriber),
}

impl Subscriber {
    /// What a subscriber answers for a block.
    pub open spec fn outcome(&self, notice: BlockNotice) -> Result<(), SubscriberError> {
        match self {
            Subscriber::Ton(_) => Ok(()),
            Subscriber::Logger(_) => Ok(()),
        }
    }

    pub fn process_block(&self, notice: &BlockNotice) -> (r: Result<(), SubscriberError>)
        ensures
            r == self.outcome(*notice),
    {
        match self {
            Subscriber::Ton(s) => s.process_block(notice),
            Subscriber::Logger(s) => s.process_block(notice),
        }
    }
}

/// The record of one call of a subscriber: which one, with what, and what
/// it answered.
#[derive(Clone, Copy, Debug)]
pub struct Delivery {
    pub subscriber: usize,
    pub notice: BlockNotice,
    pub outcome: Result<(), SubscriberError>,
}

/// The fixed list of subscribers, in registration order. It is built once
/// and never changed.
pub struct Registry {
    subscribers: Vec<Subscriber>,
}

/// Whether `deliveries` is one call of each of `subscribers`, in order, all
/// with `notice`, each with that subscriber's answer.
pub open spec fn delivered_to_each(
    subscribers: Seq<Subscriber>,
    notice: BlockNotice,
    deliveries: Seq<Delivery>,
) -> bool {
    &&& deliveries.len() == subscribers.len()
    &&& forall|i: int|
        0 <= i < deliveries.len() ==> {
            &&& (#[trigger] deliveries[i]).subscriber == i
            &&& deliveries[i].notice == notice
            &&& deliveries[i].outcome == subscribers[i].outcome(notice)
        }
}

/// Whether some delivery is a call of subscriber `s`.
pub open spec fn is_called(deliveries: Seq<Delivery>, s: int) -> bool {
    exists|k: int| 0 <= k < deliveries.len() && (#[trigger] deliveries[k]).subscriber == s
}

/// One block handed to a registry of N subscribers gives exactly N calls:
/// every subscriber is called once and no subscriber twice, every call gets
/// the same block, and what one subscriber answers has no bearing on whether
/// another is called.
pub proof fn lemma_each_subscriber_called_once(
    subscribers: Seq<Subscriber>,
    notice: BlockNotice,
    deliveries: Seq<Delivery>,
)
    requires
        delivered_to_each(subscribers, notice, deliveries),
    ensures
        deliveries.len() == subscribers.len(),
        forall|s: int| 0 <= s < subscribers.len() ==> #[trigger] is_called(deliveries, s),
        forall|k: int, l: int|
            0 <= k < deliveries.len() && 0 <= l < deliveries.len() && (#[trigger] deliveries[k]).subscriber
                == (#[trigger] deliveries[l]).subscriber ==> k == l,
        forall|k: int| 0 <= k < deliveries.len() ==> (#[trigger] deliveries[k]).notice == notice,
{
    assert forall|s: int| 0 <= s < subscribers.len() implies #[trigger] is_called(deliveries, s) by {
        assert(deliveries[s].subscriber == s);
    }
}

impl Registry {
    pub closed spec fn subscribers(&self) -> Seq<Subscriber> {
        self.subscribers@
    }

    pub fn new(subscribers: Vec<Subscriber>) -> (r: Registry)
        ensures
            r.subscribers() == subscribers@,
    {
        Registry { subscribers }
    }

    pub fn len(&self) -> (n: usize)
        ensures
            n == self.subscribers().len(),
    {
        self.subscribers.len()
    }

    /// Hands one processed block to every subscriber. A failure of one is
    /// recorded in its delivery and does not keep the block from the others.
    pub fn notify(&self, notice: &BlockNotice) -> (r: Vec<Delivery>)
        ensures
            delivered_to_each(self.subscribers(), *notice, r@),
    {
        let mut deliveries: Vec<Delivery> = Vec::new();
        let mut i: usize = 0;
        while i < self.subscribers.len()
            invariant
                i <= self.subscribers@.len(),
                deliveries@.len() == i,
                forall|k: int|
                    0 <= k < i ==> {
                        &&& (#[trigger] deliveries@[k]).subscriber == k
                        &&& deliveries@[k].notice == *notice
                        &&& deliveries@[k].outcome == self.subscribers@[k].outcome(*notice)
                    },
            decreases self.subscribers@.len() - i,
        {
            let outcome = self.subscribers[i].process_block(notice);
            deliveries.push(Delivery { subscriber: i, notice: *notice, outcome });
            i = i + 1;
        }
        deliveries
    }
}

} // verus!
