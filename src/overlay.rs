//! Request/reply on top of one-way publish. The reply subscription is
//! installed before the request is published, so a fast responder cannot
//! be missed; waiting (and its timeout) is left to the caller, who polls.
use std::sync::Arc;

use vstd::prelude::*;

use crate::broker::{
    content, holds_id, is_closed, monotone, published, send_post, subscribed, unsubscribed,
    BrokerView, Delivery, MessageBroker, SendError, SubscribeError,
};
use crate::message::{reply_topic_text, Message};
use crate::pattern::regex_accepts;

verus! {

/// How long a request waits for its reply, in milliseconds, counted from
/// the installation of the reply subscription.
pub const REPLY_TIMEOUT_MILLIS: u64 = 30000;

/// A request that was published and whose reply is awaited.
#[derive(Debug, Clone, Copy, PartialEq, Eq, Structural)]
pub struct PendingRequest {
    /// The subscription to the reply topic.
    pub subscription: u128,
    /// The id of the request, from which the reply topic is derived.
    pub request_id: u128,
    /// The time, in milliseconds, from which the request has timed out.
    pub deadline: u64,
}

/// The end of the wait for a reply to a request whose reply subscription
/// was installed at `now`: `REPLY_TIMEOUT_MILLIS` later, or the end of
/// time when that does not fit in a `u64`.
pub open spec fn deadline_after(now: u64) -> u64 {
    if now > u64::MAX - REPLY_TIMEOUT_MILLIS {
        u64::MAX
    } else {
        (now + REPLY_TIMEOUT_MILLIS) as u64
    }
}

/// What `begin_request` did.
#[derive(Debug)]
pub enum RequestStart {
    /// The message did not ask for a reply: it was published, and the
    /// request's result is "no reply".
    Sent,
    /// The message was published and its reply is awaited.
    Waiting(PendingRequest),
}

/// Why a request failed.
#[derive(Debug)]
pub enum RequestError {
    /// The message could not be published.
    Send(SendError),
    /// The reply subscription could not be installed.
    Subscribe(SubscribeError),
    /// No reply came in time.
    Timeout,
}

/// The result of a request: a reply, or none when the reply queue closed.
pub type RequestResult = Result<Option<Arc<Message>>, RequestError>;

/// What `begin_request` does.
pub open spec fn begin_request_post(
    pre: BrokerView,
    post: BrokerView,
    m: Message,
    now: u64,
    r: Result<RequestStart, RequestError>,
) -> bool {
    if !m.is_request {
        &&& post.subscriptions == pre.subscriptions
        &&& r is Ok ==> (r matches Ok(RequestStart::Sent))
        &&& r matches Err(e) ==> e is Send
        &&& exists|s: Result<(), SendError>| #[trigger]
            send_post(pre, post, m, s) && (s is Ok <==> r is Ok) && (s matches Err(e)
                ==> r == Err::<RequestStart, RequestError>(RequestError::Send(e)))
    } else {
        &&& r is Err ==> post == pre
        &&& !(r matches Ok(RequestStart::Sent))
        &&& (r matches Err(RequestError::Subscribe(SubscribeError::IdInUse)))
            ==> pre.subscriptions.len() > 0
        &&& r matches Ok(RequestStart::Waiting(p)) ==> p.request_id == m.id && p.deadline
            == deadline_after(now) && !holds_id(
            pre.subscriptions,
            p.subscription,
        ) && post == published(subscribed(pre, p.subscription, reply_topic_text(m.id)), m)
        &&& (r matches Err(RequestError::Subscribe(SubscribeError::InvalidPattern(_))))
            <==> !regex_accepts(reply_topic_text(m.id))
        &&& r matches Err(RequestError::Send(e)) ==> if is_closed(pre.status) {
            e == SendError::Closed
        } else {
            e == SendError::Full && pre.ingress.len() >= crate::broker::QUEUE_CAPACITY
        }
        &&& regex_accepts(reply_topic_text(m.id)) && !is_closed(pre.status) && pre.ingress.len()
            < crate::broker::QUEUE_CAPACITY ==> r is Ok || (r matches Err(
            RequestError::Subscribe(SubscribeError::IdInUse),
        ))
    }
}

/// What `poll_request` does to the subscription at `i`, the one the
/// pending request waits on.
pub open spec fn poll_branch(
    pre: BrokerView,
    post: BrokerView,
    p: PendingRequest,
    now: u64,
    r: Option<RequestResult>,
    i: int,
) -> bool {
    let q = pre.subscriptions[i].queue;
    if q.len() > 0 {
        r matches Some(Ok(Some(a))) && content(a) == q[0] && post == unsubscribed(pre, i)
    } else if is_closed(pre.status) || pre.subscriptions[i].closed {
        r matches Some(Ok(None)) && post == unsubscribed(pre, i)
    } else if now >= p.deadline {
        r matches Some(Err(RequestError::Timeout)) && post == unsubscribed(pre, i)
    } else {
        r is None && post == pre
    }
}

/// What `poll_request` does.
pub open spec fn poll_request_post(
    pre: BrokerView,
    post: BrokerView,
    p: PendingRequest,
    now: u64,
    r: Option<RequestResult>,
) -> bool {
    if !holds_id(pre.subscriptions, p.subscription) {
        r matches Some(Ok(None)) && post == pre
    } else {
        exists|i: int|
            0 <= i < pre.subscriptions.len() && pre.subscriptions[i].id == p.subscription
                && poll_branch(pre, post, p, now, r, i)
    }
}

/// What `abandon_request` does.
pub open spec fn abandon_request_post(pre: BrokerView, post: BrokerView, p: PendingRequest) -> bool {
    if holds_id(pre.subscriptions, p.subscription) {
        exists|i: int|
            0 <= i < pre.subscriptions.len() && pre.subscriptions[i].id == p.subscription && post
                == unsubscribed(pre, i)
    } else {
        post == pre
    }
}

impl MessageBroker {
    /// Starts a request. A message that does not ask for a reply is simply
    /// published. Otherwise the reply topic `reply-<id>` is subscribed to
    /// first, then the message is published; if publishing fails, the
    /// subscription is removed again. `now` is the time of installation,
    /// from which the reply is awaited for `REPLY_TIMEOUT_MILLIS`.
    pub fn begin_request(&mut self, m: Message, now: u64) -> (r: Result<RequestStart, RequestError>)
        requires
            old(self).wf(),
        ensures
            final(self).wf(),
            monotone(old(self)@, final(self)@),
            begin_request_post(old(self)@, final(self)@, m, now, r),
    {
        if !m.is_request {
            let s = self.send(m);
            return match s {
                Ok(()) => Ok(RequestStart::Sent),
                Err(e) => Err(RequestError::Send(e)),
            };
        }
        let reply = m.reply_topic();
        let request_id = m.id;
        let ghost pre = self@;
        let subscription = match self.subscribe(reply.as_str()) {
            Ok(id) => id,
            Err(e) => return Err(RequestError::Subscribe(e)),
        };
        let ghost mid = self@;
        match self.send(m) {
            Ok(()) => {
                let deadline = if now > u64::MAX - REPLY_TIMEOUT_MILLIS {
                    u64::MAX
                } else {
                    now + REPLY_TIMEOUT_MILLIS
                };
                Ok(RequestStart::Waiting(PendingRequest { subscription, request_id, deadline }))
            },
            Err(e) => {
                let u = self.unsubscribe(subscription);
                proof {
                    let n = pre.subscriptions.len() as int;
                    assert(mid.subscriptions[n].id == subscription);
                    assert(holds_id(mid.subscriptions, subscription));
                    let i = choose|i: int|
                        0 <= i < mid.subscriptions.len() && mid.subscriptions[i].id == subscription
                            && self@ == unsubscribed(mid, i);
                    if i < n {
                        assert(pre.subscriptions[i].id == subscription);
                    }
                    assert(i == n);
                    assert(self@.subscriptions =~= pre.subscriptions);
                }
                Err(RequestError::Send(e))
            },
        }
    }

    /// Looks, at time `now`, for the reply to a pending request. `None`:
    /// nothing yet, keep waiting. Otherwise the request is over and its
    /// subscription removed: the reply; no reply when the reply queue has
    /// closed; or `Timeout` once the deadline is reached.
    pub fn poll_request(&mut self, p: &PendingRequest, now: u64) -> (r: Option<RequestResult>)
        requires
            old(self).wf(),
        ensures
            final(self).wf(),
            monotone(old(self)@, final(self)@),
            poll_request_post(old(self)@, final(self)@, *p, now, r),
    {
        let ghost pre = self@;
        match self.receive(p.subscription) {
            Delivery::Message(a) => {
                let ghost mid = self@;
                let _ = self.unsubscribe(p.subscription);
                let r: Option<RequestResult> = Some(Ok(Some(a)));
                proof {
                    let i = choose|i: int|
                        0 <= i < pre.subscriptions.len() && pre.subscriptions[i].id
                            == p.subscription && mid == crate::broker::received(pre, i);
                    assert(mid.subscriptions[i].id == p.subscription);
                    let j = choose|j: int|
                        0 <= j < mid.subscriptions.len() && mid.subscriptions[j].id
                            == p.subscription && self@ == unsubscribed(mid, j);
                    if j != i {
                        assert(pre.subscriptions[j].id == p.subscription);
                    }
                    assert(self@.subscriptions =~= pre.subscriptions.remove(i));
                    assert(poll_branch(pre, self@, *p, now, r, i));
                }
                r
            },
            Delivery::Closed => {
                let _ = self.unsubscribe(p.subscription);
                let r: Option<RequestResult> = Some(Ok(None));
                proof {
                    if holds_id(pre.subscriptions, p.subscription) {
                        let j = choose|j: int|
                            0 <= j < pre.subscriptions.len() && pre.subscriptions[j].id
                                == p.subscription && self@ == unsubscribed(pre, j);
                        assert(poll_branch(pre, self@, *p, now, r, j));
                    }
                }
                r
            },
            Delivery::Empty => {
                if now >= p.deadline {
                    let _ = self.unsubscribe(p.subscription);
                    let r: Option<RequestResult> = Some(Err(RequestError::Timeout));
                    proof {
                        let j = choose|j: int|
                            0 <= j < pre.subscriptions.len() && pre.subscriptions[j].id
                                == p.subscription && self@ == unsubscribed(pre, j);
                        assert(poll_branch(pre, self@, *p, now, r, j));
                    }
                    r
                } else {
                    proof {
                        let i = choose|i: int|
                            0 <= i < pre.subscriptions.len() && pre.subscriptions[i].id
                                == p.subscription && pre.subscriptions[i].queue.len() == 0
                                && !is_closed(pre.status) && !pre.subscriptions[i].closed;
                        assert(poll_branch(pre, self@, *p, now, None, i));
                    }
                    None
                }
            },
        }
    }

    /// The caller no longer waits for the reply: the reply subscription is
    /// removed.
    pub fn abandon_request(&mut self, p: &PendingRequest)
        requires
            old(self).wf(),
        ensures
            final(self).wf(),
            monotone(old(self)@, final(self)@),
            abandon_request_post(old(self)@, final(self)@, *p),
    {
        let _ = self.unsubscribe(p.subscription);
    }
}

} // verus!
