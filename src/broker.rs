//! The broker: an ordered registry of subscriptions, each with its own
//! delivery queue, fed by a single bounded ingress queue, with a lifecycle
//! that only moves forward.
use std::sync::Arc;

use vstd::prelude::*;

use crate::ids::fresh_id;
use crate::message::Message;
use crate::pattern::{regex_accepts, regex_finds, Pattern, PatternError};

verus! {

/// Capacity of the ingress queue and of every delivery queue.
pub const QUEUE_CAPACITY: usize = 100;

/// How many random ids `subscribe` draws before it gives up on a collision.
pub const ID_ATTEMPTS: usize = 4;

/// The broker's lifecycle: `Unstarted -> Running -> Stopping -> Stopped`.
#[derive(Debug, Clone, Copy, PartialEq, Eq, Structural)]
pub enum Status {
    Unstarted,
    Running,
    Stopping,
    Stopped,
}

/// The position of a state in the lifecycle.
pub open spec fn status_rank(s: Status) -> nat {
    match s {
        Status::Unstarted => 0,
        Status::Running => 1,
        Status::Stopping => 2,
        Status::Stopped => 3,
    }
}

/// Once a stop has been consumed, ingress is closed.
pub open spec fn is_closed(s: Status) -> bool {
    s is Stopping || s is Stopped
}

/// Why a publish was not accepted.
#[derive(Debug, Clone, Copy, PartialEq, Eq, Structural)]
pub enum SendError {
    /// The broker has consumed a stop: nothing more is accepted.
    Closed,
    /// The ingress queue holds `QUEUE_CAPACITY` messages; the caller waits
    /// for the dispatcher and tries again.
    Full,
}

/// Why a subscription was not installed.
#[derive(Debug)]
pub enum SubscribeError {
    /// The pattern is not a valid regular expression.
    InvalidPattern(PatternError),
    /// The id is already held by another subscription.
    IdInUse,
}

/// `unsubscribe` named an id that no subscription holds.
#[derive(Debug, Clone, Copy, PartialEq, Eq, Structural)]
pub struct NotFound;

/// What a subscriber finds on its delivery queue.
pub enum Delivery {
    /// The oldest message not yet received.
    Message(Arc<Message>),
    /// Nothing yet; more may come.
    Empty,
    /// Nothing, and nothing more will come: the subscription is gone or the
    /// broker has stopped.
    Closed,
}

/// The outcome of one dispatch step.
#[derive(Debug)]
pub enum Dispatch {
    /// The broker has stopped dispatching.
    Halted,
    /// The ingress queue is empty.
    Idle,
    /// A stop was consumed: dispatch ends.
    Stopping,
    /// A message without a topic was discarded.
    Dropped,
    /// A matching delivery queue is full; the message waits at the head of
    /// the ingress queue.
    Blocked,
    /// The message was enqueued for these subscriptions, in this order.
    Delivered(Vec<u128>),
}

/// The message a shared handle points to.
pub open spec fn content(a: Arc<Message>) -> Message {
    *a
}

/// One entry of the registry.
pub struct Subscription {
    id: u128,
    pattern: Pattern,
    queue: Vec<Arc<Message>>,
    closed: bool,
}

/// A subscription as a value: its id, its pattern text, the messages
/// waiting on its delivery queue, oldest first, and whether its subscriber
/// has gone away (closed its queue) without unsubscribing.
pub struct SubscriptionView {
    pub id: u128,
    pub pattern: Seq<char>,
    pub queue: Seq<Message>,
    pub closed: bool,
}

impl View for Subscription {
    type V = SubscriptionView;

    closed spec fn view(&self) -> SubscriptionView {
        SubscriptionView {
            id: self.id,
            pattern: self.pattern@,
            queue: self.queue@.map_values(|a: Arc<Message>| *a),
            closed: self.closed,
        }
    }
}

/// The broker as a value.
pub struct BrokerView {
    pub status: Status,
    /// Published messages not yet dispatched, oldest first.
    pub ingress: Seq<Message>,
    /// The registry, in subscription order.
    pub subscriptions: Seq<SubscriptionView>,
}

/// Whether `topic` is one that `s`'s pattern matches.
pub open spec fn finds(s: SubscriptionView, topic: Seq<char>) -> bool {
    regex_finds(s.pattern, topic)
}

/// Whether a message on `topic` is delivered to `s`: its pattern matches
/// and its queue is open.
pub open spec fn accepts(s: SubscriptionView, topic: Seq<char>) -> bool {
    finds(s, topic) && !s.closed
}

/// Whether `m` carries a topic that `s`'s pattern matches.
pub open spec fn routed_to(s: SubscriptionView, m: Message) -> bool {
    m.topic is Some && finds(s, m.topic->Some_0@)
}

/// Whether some subscription holds `id`.
pub open spec fn holds_id(subs: Seq<SubscriptionView>, id: u128) -> bool {
    exists|i: int| 0 <= i < subs.len() && #[trigger] subs[i].id == id
}

/// The ids of the subscriptions that match `topic`, in registry order.
pub open spec fn deliveries(subs: Seq<SubscriptionView>, topic: Seq<char>) -> Seq<u128>
    decreases subs.len(),
{
    if subs.len() == 0 {
        Seq::empty()
    } else {
        let d = deliveries(subs.drop_last(), topic);
        if accepts(subs.last(), topic) {
            d.push(subs.last().id)
        } else {
            d
        }
    }
}

/// `s` with `m` appended to its queue.
pub open spec fn enqueued(s: SubscriptionView, m: Message) -> SubscriptionView {
    SubscriptionView { id: s.id, pattern: s.pattern, queue: s.queue.push(m), closed: s.closed }
}

/// The registry after `m`, on `topic`, was enqueued once on every matching
/// subscription.
pub open spec fn fan_out(subs: Seq<SubscriptionView>, m: Message, topic: Seq<char>) -> Seq<
    SubscriptionView,
> {
    Seq::new(
        subs.len(),
        |i: int|
            if accepts(subs[i], topic) {
                enqueued(subs[i], m)
            } else {
                subs[i]
            },
    )
}

/// Whether some subscription that matches `topic` has a full queue.
pub open spec fn blocked(subs: Seq<SubscriptionView>, topic: Seq<char>) -> bool {
    exists|i: int|
        0 <= i < subs.len() && accepts(subs[i], topic) && #[trigger] subs[i].queue.len()
            >= QUEUE_CAPACITY
}

/// The invariant of the broker.
pub open spec fn well_formed(v: BrokerView) -> bool {
    &&& v.ingress.len() <= QUEUE_CAPACITY
    &&& is_closed(v.status) ==> v.ingress.len() == 0
    &&& forall|i: int, j: int|
        0 <= i < v.subscriptions.len() && 0 <= j < v.subscriptions.len() && i != j
            ==> #[trigger] v.subscriptions[i].id != #[trigger] v.subscriptions[j].id
    &&& forall|i: int|
        0 <= i < v.subscriptions.len() ==> (#[trigger] v.subscriptions[i]).queue.len()
            <= QUEUE_CAPACITY
    &&& forall|i: int, k: int|
        0 <= i < v.subscriptions.len() && 0 <= k < v.subscriptions[i].queue.len()
            ==> routed_to(v.subscriptions[i], #[trigger] v.subscriptions[i].queue[k])
}

/// The lifecycle never moves backwards.
pub open spec fn monotone(pre: BrokerView, post: BrokerView) -> bool {
    status_rank(post.status) >= status_rank(pre.status)
}

/// `pre` with `m` appended to the ingress queue.
pub open spec fn published(pre: BrokerView, m: Message) -> BrokerView {
    BrokerView { status: pre.status, ingress: pre.ingress.push(m), subscriptions: pre.subscriptions }
}

/// `pre` with a new, empty subscription at the end of the registry.
pub open spec fn subscribed(pre: BrokerView, id: u128, pattern: Seq<char>) -> BrokerView {
    BrokerView {
        status: pre.status,
        ingress: pre.ingress,
        subscriptions: pre.subscriptions.push(
            SubscriptionView { id, pattern, queue: Seq::empty(), closed: false },
        ),
    }
}

/// `pre` with the registry entry at `i` removed.
pub open spec fn unsubscribed(pre: BrokerView, i: int) -> BrokerView {
    BrokerView {
        status: pre.status,
        ingress: pre.ingress,
        subscriptions: pre.subscriptions.remove(i),
    }
}

/// What `send` does.
pub open spec fn send_post(
    pre: BrokerView,
    post: BrokerView,
    m: Message,
    r: Result<(), SendError>,
) -> bool {
    if is_closed(pre.status) {
        r == Err::<(), SendError>(SendError::Closed) && post == pre
    } else if pre.ingress.len() >= QUEUE_CAPACITY {
        r == Err::<(), SendError>(SendError::Full) && post == pre
    } else {
        r is Ok && post == published(pre, m)
    }
}

/// What `subscribe_with_id` does.
pub open spec fn subscribe_with_id_post(
    pre: BrokerView,
    post: BrokerView,
    id: u128,
    pattern: Seq<char>,
    r: Result<u128, SubscribeError>,
) -> bool {
    if !regex_accepts(pattern) {
        r matches Err(SubscribeError::InvalidPattern(_)) && post == pre
    } else if holds_id(pre.subscriptions, id) {
        r matches Err(SubscribeError::IdInUse) && post == pre
    } else {
        r == Ok::<u128, SubscribeError>(id) && post == subscribed(pre, id, pattern)
    }
}

/// What `subscribe` does: the id is drawn at random, and the rare draw that
/// collides with a held id is drawn again a bounded number of times.
pub open spec fn subscribe_post(
    pre: BrokerView,
    post: BrokerView,
    pattern: Seq<char>,
    r: Result<u128, SubscribeError>,
) -> bool {
    &&& (r matches Err(SubscribeError::InvalidPattern(_))) <==> !regex_accepts(pattern)
    &&& r is Err ==> post == pre
    &&& (r matches Err(SubscribeError::IdInUse)) ==> pre.subscriptions.len() > 0
    &&& r matches Ok(id) ==> !holds_id(pre.subscriptions, id) && post == subscribed(
        pre,
        id,
        pattern,
    )
}

/// What `unsubscribe` does.
pub open spec fn unsubscribe_post(
    pre: BrokerView,
    post: BrokerView,
    id: u128,
    r: Result<(), NotFound>,
) -> bool {
    &&& r is Ok <==> holds_id(pre.subscriptions, id)
    &&& r is Err ==> post == pre
    &&& r is Ok ==> exists|i: int|
        0 <= i < pre.subscriptions.len() && pre.subscriptions[i].id == id && post
            == unsubscribed(pre, i)
}

/// `pre` with the oldest message of the subscription at `i` taken off.
pub open spec fn received(pre: BrokerView, i: int) -> BrokerView {
    let s = pre.subscriptions[i];
    BrokerView {
        status: pre.status,
        ingress: pre.ingress,
        subscriptions: pre.subscriptions.update(
            i,
            SubscriptionView {
                id: s.id,
                pattern: s.pattern,
                queue: s.queue.drop_first(),
                closed: s.closed,
            },
        ),
    }
}

/// `pre` with the queue of the subscription at `i` closed and emptied.
pub open spec fn queue_closed(pre: BrokerView, i: int) -> BrokerView {
    let s = pre.subscriptions[i];
    BrokerView {
        status: pre.status,
        ingress: pre.ingress,
        subscriptions: pre.subscriptions.update(
            i,
            SubscriptionView { id: s.id, pattern: s.pattern, queue: Seq::empty(), closed: true },
        ),
    }
}

/// What `close_queue` does.
pub open spec fn close_queue_post(
    pre: BrokerView,
    post: BrokerView,
    id: u128,
    r: Result<(), NotFound>,
) -> bool {
    &&& r is Ok <==> holds_id(pre.subscriptions, id)
    &&& r is Err ==> post == pre
    &&& r is Ok ==> exists|i: int|
        0 <= i < pre.subscriptions.len() && pre.subscriptions[i].id == id && post
            == queue_closed(pre, i)
}

/// What `receive` does.
pub open spec fn receive_post(pre: BrokerView, post: BrokerView, id: u128, r: Delivery) -> bool {
    if !holds_id(pre.subscriptions, id) {
        r is Closed && post == pre
    } else {
        exists|i: int|
            0 <= i < pre.subscriptions.len() && pre.subscriptions[i].id == id && {
                let q = pre.subscriptions[i].queue;
                if q.len() > 0 {
                    r matches Delivery::Message(a) && *a == q[0] && post == received(pre, i)
                } else if is_closed(pre.status) || pre.subscriptions[i].closed {
                    r is Closed && post == pre
                } else {
                    r is Empty && post == pre
                }
            }
    }
}

/// What one dispatch step does.
pub open spec fn dispatch_post(pre: BrokerView, post: BrokerView, r: Dispatch) -> bool {
    if is_closed(pre.status) {
        r is Halted && post == pre
    } else if pre.ingress.len() == 0 {
        r is Idle && post == pre
    } else {
        let m = pre.ingress[0];
        if m.body is Stop {
            r is Stopping && post == BrokerView {
                status: Status::Stopping,
                ingress: Seq::empty(),
                subscriptions: pre.subscriptions,
            }
        } else if m.topic is None {
            r is Dropped && post == BrokerView {
                status: pre.status,
                ingress: pre.ingress.drop_first(),
                subscriptions: pre.subscriptions,
            }
        } else {
            let t = m.topic->Some_0@;
            if blocked(pre.subscriptions, t) {
                r is Blocked && post == pre
            } else {
                r matches Dispatch::Delivered(ids) && ids@ == deliveries(pre.subscriptions, t)
                    && post == BrokerView {
                    status: pre.status,
                    ingress: pre.ingress.drop_first(),
                    subscriptions: fan_out(pre.subscriptions, m, t),
                }
            }
        }
    }
}

/// The broker: lifecycle state, ingress queue and registry.
pub struct MessageBroker {
    status: Status,
    ingress: Vec<Message>,
    subscriptions: Vec<Subscription>,
}

impl View for MessageBroker {
    type V = BrokerView;

    closed spec fn view(&self) -> BrokerView {
        BrokerView {
            status: self.status,
            ingress: self.ingress@,
            subscriptions: self.subscriptions@.map_values(|s: Subscription| s@),
        }
    }
}

impl MessageBroker {
    /// The broker's invariant.
    pub open spec fn wf(&self) -> bool {
        well_formed(self@)
    }

    /// An unstarted broker with no subscriptions and nothing published.
    pub fn new() -> (r: MessageBroker)
        ensures
            r.wf(),
            r@.status == Status::Unstarted,
            r@.ingress.len() == 0,
            r@.subscriptions.len() == 0,
    {
        let r = MessageBroker { status: Status::Unstarted, ingress: Vec::new(), subscriptions: Vec::new() };
        assert(r@.subscriptions =~= Seq::<SubscriptionView>::empty());
        r
    }

    /// A snapshot of the lifecycle state.
    pub fn status(&self) -> (r: Status)
        ensures
            r == self@.status,
    {
        self.status
    }

    /// How many published messages wait for dispatch; `send` is refused as
    /// full at `QUEUE_CAPACITY`.
    pub fn pending(&self) -> (r: usize)
        ensures
            r == self@.ingress.len(),
    {
        self.ingress.len()
    }

    /// The dispatcher has started: `Unstarted` becomes `Running`; any later
    /// state stays as it is.
    pub fn start(&mut self)
        requires
            old(self).wf(),
        ensures
            final(self).wf(),
            monotone(old(self)@, final(self)@),
            final(self)@ == (BrokerView {
                status: if old(self)@.status is Unstarted {
                    Status::Running
                } else {
                    old(self)@.status
                },
                ..old(self)@
            }),
    {
        if self.status == Status::Unstarted {
            self.status = Status::Running;
        }
    }

    /// Publishes `m` on the ingress queue.
    pub fn send(&mut self, m: Message) -> (r: Result<(), SendError>)
        requires
            old(self).wf(),
        ensures
            final(self).wf(),
            monotone(old(self)@, final(self)@),
            send_post(old(self)@, final(self)@, m, r),
    {
        if self.status == Status::Stopping || self.status == Status::Stopped {
            return Err(SendError::Closed);
        }
        if self.ingress.len() >= QUEUE_CAPACITY {
            return Err(SendError::Full);
        }
        self.ingress.push(m);
        Ok(())
    }

    /// The registry position of the subscription holding `id`.
    fn position(&self, id: u128) -> (r: Option<usize>)
        ensures
            r matches Some(i) ==> i < self@.subscriptions.len() && self@.subscriptions[i as int].id
                == id,
            r is None ==> !holds_id(self@.subscriptions, id),
    {
        let mut i: usize = 0;
        while i < self.subscriptions.len()
            invariant
                i <= self.subscriptions.len(),
                forall|j: int| 0 <= j < i ==> self@.subscriptions[j].id != id,
            decreases self.subscriptions.len() - i,
        {
            if self.subscriptions[i].id == id {
                return Some(i);
            }
            i += 1;
        }
        None
    }

    /// Appends a new subscription with an empty queue to the registry.
    fn insert(&mut self, id: u128, pattern: Pattern)
        requires
            old(self).wf(),
            !holds_id(old(self)@.subscriptions, id),
        ensures
            final(self).wf(),
            final(self)@ == subscribed(old(self)@, id, pattern@),
    {
        let sub = Subscription { id, pattern, queue: Vec::new(), closed: false };
        proof {
            assert(sub@.queue =~= Seq::<Message>::empty());
        }
        self.subscriptions.push(sub);
        proof {
            assert(self@.subscriptions =~= old(self)@.subscriptions.push(sub@));
        }
    }

    /// Installs a subscription to `pattern` under the given id.
    pub fn subscribe_with_id(&mut self, id: u128, pattern: &str) -> (r: Result<
        u128,
        SubscribeError,
    >)
        requires
            old(self).wf(),
        ensures
            final(self).wf(),
            monotone(old(self)@, final(self)@),
            subscribe_with_id_post(old(self)@, final(self)@, id, pattern@, r),
    {
        let compiled = match Pattern::new(pattern) {
            Ok(p) => p,
            Err(e) => return Err(SubscribeError::InvalidPattern(e)),
        };
        match self.position(id) {
            Some(_) => Err(SubscribeError::IdInUse),
            None => {
                self.insert(id, compiled);
                Ok(id)
            },
        }
    }

    /// Installs a subscription to `pattern` under a fresh random id, which
    /// is returned; the subscriber reads its queue with `receive`.
    pub fn subscribe(&mut self, pattern: &str) -> (r: Result<u128, SubscribeError>)
        requires
            old(self).wf(),
        ensures
            final(self).wf(),
            monotone(old(self)@, final(self)@),
            subscribe_post(old(self)@, final(self)@, pattern@, r),
    {
        let compiled = match Pattern::new(pattern) {
            Ok(p) => p,
            Err(e) => return Err(SubscribeError::InvalidPattern(e)),
        };
        let mut attempt: usize = 0;
        while attempt < ID_ATTEMPTS
            invariant
                self.wf(),
                self@ == old(self)@,
                compiled@ == pattern@,
                regex_accepts(pattern@),
                attempt > 0 ==> self@.subscriptions.len() > 0,
            decreases ID_ATTEMPTS - attempt,
        {
            let id = fresh_id();
            if self.position(id).is_none() {
                self.insert(id, compiled);
                return Ok(id);
            }
            attempt += 1;
        }
        Err(SubscribeError::IdInUse)
    }

    /// Removes the subscription holding `id`; its queue goes with it.
    pub fn unsubscribe(&mut self, id: u128) -> (r: Result<(), NotFound>)
        requires
            old(self).wf(),
        ensures
            final(self).wf(),
            monotone(old(self)@, final(self)@),
            unsubscribe_post(old(self)@, final(self)@, id, r),
    {
        match self.position(id) {
            Some(i) => {
                let _ = self.subscriptions.remove(i);
                proof {
                    assert(self@.subscriptions =~= old(self)@.subscriptions.remove(i as int));
                    assert(self@ == unsubscribed(old(self)@, i as int));
                }
                Ok(())
            },
            None => Err(NotFound),
        }
    }

    /// The subscriber of `id` has gone away without unsubscribing: its queue
    /// is emptied and closed, and dispatch passes it over from now on.
    pub fn close_queue(&mut self, id: u128) -> (r: Result<(), NotFound>)
        requires
            old(self).wf(),
        ensures
            final(self).wf(),
            monotone(old(self)@, final(self)@),
            close_queue_post(old(self)@, final(self)@, id, r),
    {
        match self.position(id) {
            Some(i) => {
                self.subscriptions[i].queue = Vec::new();
                self.subscriptions[i].closed = true;
                proof {
                    let s = self.subscriptions@[i as int]@;
                    assert(s.queue =~= Seq::<Message>::empty());
                    assert(self@.subscriptions =~= queue_closed(old(self)@, i as int).subscriptions);
                }
                Ok(())
            },
            None => Err(NotFound),
        }
    }

    /// Takes the oldest message off the delivery queue of subscription `id`.
    pub fn receive(&mut self, id: u128) -> (r: Delivery)
        requires
            old(self).wf(),
        ensures
            final(self).wf(),
            monotone(old(self)@, final(self)@),
            receive_post(old(self)@, final(self)@, id, r),
    {
        match self.position(id) {
            None => Delivery::Closed,
            Some(i) => {
                proof {
                    assert(old(self)@.subscriptions[i as int].id == id);
                }
                if self.subscriptions[i].queue.len() > 0 {
                    let a = self.subscriptions[i].queue.remove(0);
                    proof {
                        let s = old(self)@.subscriptions[i as int];
                        assert(self.subscriptions@[i as int]@.queue =~= s.queue.drop_first());
                        assert(self@.subscriptions =~= received(old(self)@, i as int).subscriptions);
                    }
                    Delivery::Message(a)
                } else if self.status == Status::Stopping || self.status == Status::Stopped
                    || self.subscriptions[i].closed {
                    Delivery::Closed
                } else {
                    Delivery::Empty
                }
            },
        }
    }

    /// Whether a subscription matching `topic` has a full queue.
    fn any_full(&self, topic: &str) -> (r: bool)
        ensures
            r == blocked(self@.subscriptions, topic@),
    {
        let mut i: usize = 0;
        while i < self.subscriptions.len()
            invariant
                i <= self.subscriptions.len(),
                forall|j: int|
                    0 <= j < i ==> !(accepts(self@.subscriptions[j], topic@)
                        && self@.subscriptions[j].queue.len() >= QUEUE_CAPACITY),
            decreases self.subscriptions.len() - i,
        {
            if self.subscriptions[i].queue.len() >= QUEUE_CAPACITY && !self.subscriptions[i].closed
                && self.subscriptions[i].pattern.is_match(topic) {
                proof {
                    assert(self@.subscriptions[i as int].queue.len() >= QUEUE_CAPACITY);
                }
                return true;
            }
            i += 1;
        }
        false
    }

    /// Enqueues `m`, whose topic is `topic`, once on every subscription that
    /// matches it, in registry order.
    fn fan_out_to(&mut self, m: Arc<Message>, topic: &str) -> (ids: Vec<u128>)
        requires
            old(self).wf(),
            (*m).topic matches Some(t) && t@ == topic@,
            !blocked(old(self)@.subscriptions, topic@),
        ensures
            final(self).wf(),
            final(self)@ == (BrokerView {
                subscriptions: fan_out(old(self)@.subscriptions, *m, topic@),
                ..old(self)@
            }),
            ids@ == deliveries(old(self)@.subscriptions, topic@),
    {
        let ghost subs0 = old(self)@.subscriptions;
        let ghost target = fan_out(subs0, content(m), topic@);
        let mut ids: Vec<u128> = Vec::new();
        let mut i: usize = 0;
        while i < self.subscriptions.len()
            invariant
                self.subscriptions.len() == subs0.len(),
                target == fan_out(subs0, content(m), topic@),
                subs0 == old(self)@.subscriptions,
                i <= subs0.len(),
                self.status == old(self).status,
                self.ingress@ == old(self).ingress@,
                forall|j: int| 0 <= j < i ==> self@.subscriptions[j] == target[j],
                forall|j: int| i <= j < subs0.len() ==> self@.subscriptions[j] == subs0[j],
                ids@ == deliveries(subs0.take(i as int), topic@),
            decreases self.subscriptions.len() - i,
        {
            proof {
                assert(subs0.take(i + 1).drop_last() =~= subs0.take(i as int));
                assert(subs0.take(i + 1).last() == subs0[i as int]);
            }
            let matched = !self.subscriptions[i].closed && self.subscriptions[i].pattern.is_match(
                topic,
            );
            proof {
                assert(self@.subscriptions[i as int] == self.subscriptions@[i as int]@);
                assert(self@.subscriptions[i as int] == subs0[i as int]);
                assert(matched == accepts(subs0[i as int], topic@));
                assert(target[i as int] == if matched {
                    enqueued(subs0[i as int], content(m))
                } else {
                    subs0[i as int]
                });
            }
            if matched {
                let ghost before = self.subscriptions@[i as int]@;
                self.subscriptions[i].queue.push(m.clone());
                ids.push(self.subscriptions[i].id);
                proof {
                    let after = self.subscriptions@[i as int]@;
                    assert(before == subs0[i as int]);
                    assert(after.queue =~= before.queue.push(content(m)));
                    assert(after == enqueued(before, content(m)));
                    assert(self@.subscriptions[i as int] == after);
                }
            }
            assert(self@.subscriptions[i as int] == target[i as int]);
            i += 1;
        }
        proof {
            assert(subs0.take(subs0.len() as int) =~= subs0);
            assert(self@.subscriptions =~= target);
            let v = self@;
            assert forall|a: int, k: int|
                0 <= a < v.subscriptions.len() && 0 <= k < v.subscriptions[a].queue.len()
                    implies routed_to(v.subscriptions[a], #[trigger] v.subscriptions[a].queue[k]) by {
                if accepts(subs0[a], topic@) && k == subs0[a].queue.len() {
                } else {
                    assert(v.subscriptions[a].queue[k] == subs0[a].queue[k]);
                }
            }
            assert forall|a: int| 0 <= a < v.subscriptions.len()
                implies (#[trigger] v.subscriptions[a]).queue.len() <= QUEUE_CAPACITY by {
                assert(subs0[a].queue.len() <= QUEUE_CAPACITY);
                if accepts(subs0[a], topic@) {
                    assert(!(subs0[a].queue.len() >= QUEUE_CAPACITY));
                }
            }
        }
        ids
    }

    /// One step of the dispatcher: takes the oldest published message and
    /// acts on it. A stop ends dispatch and discards what is still queued
    /// for dispatch; a message without a topic is discarded; any other is
    /// enqueued once on every subscription whose pattern matches its topic,
    /// in registry order, unless one of those queues is full, in which case
    /// nothing happens and the message waits.
    pub fn dispatch_next(&mut self) -> (r: Dispatch)
        requires
            old(self).wf(),
        ensures
            final(self).wf(),
            monotone(old(self)@, final(self)@),
            dispatch_post(old(self)@, final(self)@, r),
    {
        if self.status == Status::Stopping || self.status == Status::Stopped {
            return Dispatch::Halted;
        }
        if self.ingress.len() == 0 {
            return Dispatch::Idle;
        }
        if self.ingress[0].is_stop() {
            self.status = Status::Stopping;
            self.ingress = Vec::new();
            proof {
                assert(self@.ingress =~= Seq::<Message>::empty());
                assert(well_formed(self@));
            }
            return Dispatch::Stopping;
        }
        let head_topic: Option<String> = match &self.ingress[0].topic {
            Some(t) => Some(t.clone()),
            None => None,
        };
        match head_topic {
            None => {
                let _ = self.ingress.remove(0);
                proof {
                    assert(self@.ingress =~= old(self)@.ingress.drop_first());
                    assert(self@.subscriptions == old(self)@.subscriptions);
                }
                Dispatch::Dropped
            },
            Some(topic) => {
                if self.any_full(topic.as_str()) {
                    return Dispatch::Blocked;
                }
                let m = self.ingress.remove(0);
                proof {
                    assert(self@.ingress =~= old(self)@.ingress.drop_first());
                }
                let ids = self.fan_out_to(Arc::new(m), topic.as_str());
                Dispatch::Delivered(ids)
            },
        }
    }

    /// The dispatcher has exited: the broker is `Stopped`, ingress is closed
    /// and emptied. Queued deliveries stay readable until drained.
    pub fn shut_down(&mut self)
        requires
            old(self).wf(),
        ensures
            final(self).wf(),
            monotone(old(self)@, final(self)@),
            final(self)@ == (BrokerView {
                status: Status::Stopped,
                ingress: Seq::empty(),
                subscriptions: old(self)@.subscriptions,
            }),
    {
        self.status = Status::Stopped;
        self.ingress = Vec::new();
        proof {
            assert(self@.ingress =~= Seq::<Message>::empty());
        }
    }
}

} // verus!
