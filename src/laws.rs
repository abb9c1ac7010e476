//! Properties of the broker that relate several operations or hold of
//! every execution, proved from the operations' contracts.
use vstd::prelude::*;

use crate::broker::{
    accepts, content, deliveries, dispatch_post, finds, holds_id, is_closed, monotone, routed_to,
    send_post, subscribe_post, unsubscribe_post, well_formed, BrokerView, Dispatch, SendError,
    SubscriptionView,
};
use crate::message::reply_topic_text;
use crate::message::Message;
use crate::broker::{unsubscribed, QUEUE_CAPACITY};
use crate::overlay::{
    begin_request_post, poll_branch, poll_request_post, PendingRequest, RequestError, RequestResult,
    RequestStart,
};
use crate::pattern::regex_finds;

verus! {

/// A matching subscription's id occurs in the delivery list.
proof fn lemma_delivered_somewhere(subs: Seq<SubscriptionView>, t: Seq<char>, i: int)
    requires
        0 <= i < subs.len(),
        accepts(subs[i], t),
    ensures
        exists|a: int| 0 <= a < deliveries(subs, t).len() && deliveries(subs, t)[a] == subs[i].id,
    decreases subs.len(),
{
    let d = deliveries(subs.drop_last(), t);
    if i == subs.len() - 1 {
        assert(deliveries(subs, t)[d.len() as int] == subs[i].id);
    } else {
        lemma_delivered_somewhere(subs.drop_last(), t, i);
        let a = choose|a: int| 0 <= a < d.len() && d[a] == subs.drop_last()[i].id;
        assert(deliveries(subs, t)[a] == subs[i].id);
    }
}

/// Two matching subscriptions occur in the delivery list in registry order.
proof fn lemma_delivered_in_order(subs: Seq<SubscriptionView>, t: Seq<char>, i: int, j: int)
    requires
        0 <= i < j < subs.len(),
        accepts(subs[i], t),
        accepts(subs[j], t),
    ensures
        exists|a: int, b: int|
            0 <= a < b < deliveries(subs, t).len() && deliveries(subs, t)[a] == subs[i].id
                && deliveries(subs, t)[b] == subs[j].id,
    decreases subs.len(),
{
    let prefix = subs.drop_last();
    let d = deliveries(prefix, t);
    if j == subs.len() - 1 {
        lemma_delivered_somewhere(prefix, t, i);
        let a = choose|a: int| 0 <= a < d.len() && d[a] == prefix[i].id;
        assert(deliveries(subs, t)[a] == subs[i].id);
        assert(deliveries(subs, t)[d.len() as int] == subs[j].id);
    } else {
        lemma_delivered_in_order(prefix, t, i, j);
        let (a, b) = choose|a: int, b: int|
            0 <= a < b < d.len() && d[a] == prefix[i].id && d[b] == prefix[j].id;
        assert(deliveries(subs, t)[a] == subs[i].id);
        assert(deliveries(subs, t)[b] == subs[j].id);
    }
}

/// Delivery is exactly once: when a message with a topic is dispatched,
/// every subscription installed at that moment whose pattern matches the
/// topic gets exactly one copy of it, equal to the published envelope,
/// appended to its queue; every other subscription's queue is unchanged.
pub proof fn law_single_delivery(pre: BrokerView, post: BrokerView, r: Dispatch, i: int)
    requires
        well_formed(pre),
        dispatch_post(pre, post, r),
        r is Delivered,
        0 <= i < pre.subscriptions.len(),
    ensures
        pre.ingress.len() > 0,
        pre.ingress[0].topic is Some,
        post.subscriptions.len() == pre.subscriptions.len(),
        post.subscriptions[i].id == pre.subscriptions[i].id,
        accepts(pre.subscriptions[i], pre.ingress[0].topic->Some_0@) ==> post.subscriptions[i].queue
            == pre.subscriptions[i].queue.push(pre.ingress[0]),
        !accepts(pre.subscriptions[i], pre.ingress[0].topic->Some_0@)
            ==> post.subscriptions[i].queue == pre.subscriptions[i].queue,
{
}

/// Fan-out follows registry order: of two subscriptions that match a
/// dispatched message, the one installed earlier has the message enqueued
/// first.
pub proof fn law_fan_out_order(pre: BrokerView, post: BrokerView, r: Dispatch, i: int, j: int)
    requires
        well_formed(pre),
        dispatch_post(pre, post, r),
        r is Delivered,
        0 <= i < j < pre.subscriptions.len(),
        accepts(pre.subscriptions[i], pre.ingress[0].topic->Some_0@),
        accepts(pre.subscriptions[j], pre.ingress[0].topic->Some_0@),
    ensures
        exists|a: int, b: int|
            0 <= a < b < r->Delivered_0@.len() && r->Delivered_0@[a] == pre.subscriptions[i].id
                && r->Delivered_0@[b] == pre.subscriptions[j].id,
{
    lemma_delivered_in_order(pre.subscriptions, pre.ingress[0].topic->Some_0@, i, j);
}

/// Unsubscribing from a freshly subscribed id succeeds once; a second
/// unsubscribe of the same id reports that it is not found.
pub proof fn law_unsubscribe_once(
    v0: BrokerView,
    v1: BrokerView,
    v2: BrokerView,
    v3: BrokerView,
    pattern: Seq<char>,
    id: u128,
    r2: Result<(), crate::broker::NotFound>,
    r3: Result<(), crate::broker::NotFound>,
)
    requires
        well_formed(v0),
        subscribe_post(v0, v1, pattern, Ok(id)),
        unsubscribe_post(v1, v2, id, r2),
        unsubscribe_post(v2, v3, id, r3),
    ensures
        r2 is Ok,
        r3 is Err,
{
    let n = v0.subscriptions.len() as int;
    assert(v1.subscriptions[n].id == id);
    assert(holds_id(v1.subscriptions, id));
    let i = choose|i: int|
        0 <= i < v1.subscriptions.len() && v1.subscriptions[i].id == id && v2
            == crate::broker::unsubscribed(v1, i);
    if i < n {
        assert(v0.subscriptions[i].id == id);
    }
    assert(i == n);
    assert(v2.subscriptions =~= v0.subscriptions);
    if holds_id(v2.subscriptions, id) {
        let k = choose|k: int| 0 <= k < v2.subscriptions.len() && v2.subscriptions[k].id == id;
        assert(v0.subscriptions[k].id == id);
    }
}

/// The lifecycle is monotone: a broker observed `Stopped` is never
/// observed in any other state afterwards.
pub proof fn law_stopped_is_final(pre: BrokerView, post: BrokerView)
    requires
        pre.status is Stopped,
        monotone(pre, post),
    ensures
        post.status is Stopped,
{
}

/// After a stop is consumed nothing is delivered any more: further
/// dispatch steps change nothing, and every publish is refused.
pub proof fn law_quiet_after_stop(pre: BrokerView, post: BrokerView, r: Dispatch)
    requires
        dispatch_post(pre, post, r),
        r is Stopping,
    ensures
        is_closed(post.status),
        post.subscriptions == pre.subscriptions,
        forall|later: BrokerView, r2: Dispatch| #[trigger]
            dispatch_post(post, later, r2) ==> later == post && r2 is Halted,
        forall|later: BrokerView, m: Message, s: Result<(), SendError>| #[trigger]
            send_post(post, later, m, s) ==> later == post && s == Err::<(), SendError>(
                SendError::Closed,
            ),
{
}

/// A message that does not ask for a reply is only published: no reply
/// topic is subscribed to, and while ingress is open and has room the
/// request succeeds with "no reply" and appends the message once.
pub proof fn law_one_way_request(
    pre: BrokerView,
    post: BrokerView,
    m: Message,
    now: u64,
    r: Result<RequestStart, RequestError>,
)
    requires
        begin_request_post(pre, post, m, now, r),
        !m.is_request,
    ensures
        post.subscriptions == pre.subscriptions,
        r is Ok ==> (r matches Ok(RequestStart::Sent)),
        r is Ok ==> post.ingress == pre.ingress.push(m),
        r is Err ==> post == pre,
        !is_closed(pre.status) && pre.ingress.len() < QUEUE_CAPACITY ==> (r matches Ok(
            RequestStart::Sent,
        )) && post.ingress == pre.ingress.push(m),
{
}

/// The timeout is never early and cleans up: a request reports `Timeout`
/// only once its deadline, `REPLY_TIMEOUT_MILLIS` after the reply
/// subscription was installed, has been reached, and its reply
/// subscription is then gone.
pub proof fn law_timeout(
    pre: BrokerView,
    post: BrokerView,
    p: PendingRequest,
    now: u64,
    r: Option<RequestResult>,
)
    requires
        well_formed(pre),
        poll_request_post(pre, post, p, now, r),
        r matches Some(Err(_)),
    ensures
        r matches Some(Err(RequestError::Timeout)),
        now >= p.deadline,
        !holds_id(post.subscriptions, p.subscription),
{
    let i = choose|i: int|
        0 <= i < pre.subscriptions.len() && pre.subscriptions[i].id == p.subscription
            && poll_branch(pre, post, p, now, r, i);
    assert(post == unsubscribed(pre, i));
    if holds_id(post.subscriptions, p.subscription) {
        let k = choose|k: int|
            0 <= k < post.subscriptions.len() && post.subscriptions[k].id == p.subscription;
        if k < i {
            assert(pre.subscriptions[k].id == p.subscription);
        } else {
            assert(pre.subscriptions[k + 1].id == p.subscription);
        }
    }
}

/// A reply returned by a request was published on a topic that the reply
/// pattern `reply-<U>` of the request id `U` matches, given that the
/// pending request's subscription is the one on that reply topic. (The
/// match is unanchored: `reply-<U>` itself, but also a topic such as
/// `xreply-<U>`.)
pub proof fn law_reply_topic(
    pre: BrokerView,
    post: BrokerView,
    p: PendingRequest,
    now: u64,
    r: Option<RequestResult>,
)
    requires
        well_formed(pre),
        poll_request_post(pre, post, p, now, r),
        r matches Some(Ok(Some(_))),
        forall|i: int|
            0 <= i < pre.subscriptions.len() && #[trigger] pre.subscriptions[i].id == p.subscription
                ==> pre.subscriptions[i].pattern == reply_topic_text(p.request_id),
    ensures
        content(r->Some_0->Ok_0->Some_0).topic matches Some(t) && regex_finds(
            reply_topic_text(p.request_id),
            t@,
        ),
{
    let i = choose|i: int|
        0 <= i < pre.subscriptions.len() && pre.subscriptions[i].id == p.subscription
            && poll_branch(pre, post, p, now, r, i);
    assert(routed_to(pre.subscriptions[i], pre.subscriptions[i].queue[0]));
}

} // verus!
