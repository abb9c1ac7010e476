//! What the actors decide: which persistence query an incoming message
//! calls for, and which reply the query's outcome becomes. Receiving,
//! requesting and publishing are done by whoever runs the actor.
use std::sync::Arc;

use vstd::prelude::*;

use crate::broker::content;
use crate::ids::{fresh_id, is_v4};
use crate::message::{
    id_topic_text, inventory_in_topic, reply_topic_text, Message, MessageBody, Query,
    QueryResponse,
};
use crate::overlay::{RequestError, RequestResult};

verus! {

/// The body of the reply a request obtained, if it obtained one.
pub open spec fn reply_body(outcome: RequestResult) -> Option<MessageBody> {
    match outcome {
        Ok(Some(a)) => Some(content(a).body),
        _ => None,
    }
}

/// The query response inside a request's reply, if there is one.
pub open spec fn query_response(outcome: RequestResult) -> Option<QueryResponse> {
    match reply_body(outcome) {
        Some(MessageBody::PersistenceQueryResponse(q)) => Some(q),
        _ => None,
    }
}

/// The text of a request error, as shown to users and in logs.
pub open spec fn request_error_text(e: RequestError) -> Seq<char> {
    match e {
        RequestError::Send(crate::broker::SendError::Closed) => "channel closed"@,
        RequestError::Send(crate::broker::SendError::Full) => "channel full"@,
        RequestError::Subscribe(crate::broker::SubscribeError::InvalidPattern(p)) =>
            "Failed to subscribe: "@ + p.message@,
        RequestError::Subscribe(crate::broker::SubscribeError::IdInUse) =>
            "Failed to subscribe: subscription id in use"@,
        RequestError::Timeout => "Timeout waiting for reply"@,
    }
}

impl RequestError {
    /// The text of the error.
    pub fn describe(&self) -> (r: String)
        ensures
            r@ == request_error_text(*self),
    {
        match self {
            RequestError::Send(crate::broker::SendError::Closed) => String::from_str(
                "channel closed",
            ),
            RequestError::Send(crate::broker::SendError::Full) => String::from_str("channel full"),
            RequestError::Subscribe(crate::broker::SubscribeError::InvalidPattern(p)) => {
                String::from_str("Failed to subscribe: ").concat(p.message.as_str())
            },
            RequestError::Subscribe(crate::broker::SubscribeError::IdInUse) => String::from_str(
                "Failed to subscribe: subscription id in use",
            ),
            RequestError::Timeout => String::from_str("Timeout waiting for reply"),
        }
    }
}

/// A copy of a list of ids.
pub fn copy_ids(ids: &Vec<u128>) -> (r: Vec<u128>)
    ensures
        r@ == ids@,
{
    let mut r: Vec<u128> = Vec::new();
    let mut i: usize = 0;
    while i < ids.len()
        invariant
            i <= ids.len(),
            r@ == ids@.take(i as int),
        decreases ids.len() - i,
    {
        r.push(ids[i]);
        proof {
            assert(ids@.take(i + 1) =~= ids@.take(i as int).push(ids@[i as int]));
        }
        i += 1;
    }
    proof {
        assert(ids@.take(ids.len() as int) =~= ids@);
    }
    r
}

/// The topic of the persistence gateway.
pub fn persistence_topic() -> (r: String)
    ensures
        r@ == "persistence"@,
{
    String::from_str("persistence")
}

/// The topic the ticker publishes on.
pub fn ticks_topic() -> (r: String)
    ensures
        r@ == "ticks"@,
{
    String::from_str("ticks")
}

/// The topic of the authentication actor.
pub fn auth_topic() -> (r: String)
    ensures
        r@ == "auth"@,
{
    String::from_str("auth")
}

/// Whether `m` asks the persistence gateway for `q` and awaits a reply,
/// stamped `now`.
pub open spec fn asks_persistence(m: Message, q: Query, now: u64) -> bool {
    &&& m.timestamp == now
    &&& m.body == MessageBody::PersistenceQueryRequest(q)
    &&& m.is_request
    &&& m.topic matches Some(t) && t@ == "persistence"@
}

/// Whether `m` is a one-way message stamped `now` and published on the
/// reply topic of the message with id `id`.
pub open spec fn answers(m: Message, id: u128, now: u64) -> bool {
    &&& m.timestamp == now
    &&& !m.is_request
    &&& m.topic matches Some(t) && t@ == reply_topic_text(id)
}

/// Whether `b` is the `BuildResponse` that carries `text`.
pub open spec fn carries_build_response(b: MessageBody, text: Result<Seq<char>, Seq<char>>) -> bool {
    match text {
        Ok(x) => b matches MessageBody::BuildResponse(Ok(s)) && s@ == x,
        Err(x) => b matches MessageBody::BuildResponse(Err(s)) && s@ == x,
    }
}

/// A request for the persistence gateway, stamped `now`.
pub fn persistence_request(q: Query, now: u64) -> (r: Message)
    ensures
        asks_persistence(r, q, now),
        is_v4(r.id),
{
    Message::new_request(MessageBody::PersistenceQueryRequest(q), Some(persistence_topic()), now)
}

/// The authentication actor.
pub struct AuthActorHandler {
    pub id: u128,
}

/// What authentication gives for the outcome of an `Auth` query.
pub open spec fn authentication_text(outcome: RequestResult) -> Result<Seq<char>, Seq<char>> {
    match query_response(outcome) {
        Some(QueryResponse::AuthSuccess(token)) => Ok(token@),
        Some(QueryResponse::AuthFailed(reason)) => Err("Authentication failed: "@ + reason@),
        _ => Err("Authentication failed"@),
    }
}

impl AuthActorHandler {
    pub fn new() -> (r: AuthActorHandler)
        ensures
            is_v4(r.id),
    {
        AuthActorHandler { id: fresh_id() }
    }

    /// The query that asks for the ids of all inventories, stamped `now`.
    pub fn inventory_ids_query(now: u64) -> (r: Message)
        ensures
            asks_persistence(r, Query::GetInventoryIds, now),
    {
        persistence_request(Query::GetInventoryIds, now)
    }

    /// The inventory ids in the reply to `inventory_ids_query`; none when
    /// the request failed, the query failed or the reply is of another kind.
    pub fn get_inventory_ids(outcome: &RequestResult) -> (r: Vec<u128>)
        ensures
            r@ == match query_response(*outcome) {
                Some(QueryResponse::GetInventoryIds(ids)) => ids@,
                _ => Seq::<u128>::empty(),
            },
    {
        if let Ok(Some(m)) = outcome {
            if let MessageBody::PersistenceQueryResponse(QueryResponse::GetInventoryIds(ids)) = &m.body {
                return copy_ids(ids);
            }
        }
        Vec::new()
    }

    /// The query an incoming message calls for, stamped `now`: a credentials
    /// check for an authentication request, nothing for anything else.
    pub fn query_for(incoming: &Message, now: u64) -> (r: Option<Message>)
        ensures
            match incoming.body {
                MessageBody::AuthenticationRequest { user, password } => r matches Some(q)
                    && asks_persistence(q, Query::Auth { username: user, password }, now),
                _ => r is None,
            },
    {
        match &incoming.body {
            MessageBody::AuthenticationRequest { user, password } => Some(
                persistence_request(
                    Query::Auth { username: user.clone(), password: password.clone() },
                    now,
                ),
            ),
            _ => None,
        }
    }

    /// The token from the reply to an `Auth` query, or why there is none.
    pub fn authenticate(outcome: &RequestResult) -> (r: Result<String, String>)
        ensures
            match authentication_text(*outcome) {
                Ok(t) => r matches Ok(s) && s@ == t,
                Err(e) => r matches Err(s) && s@ == e,
            },
    {
        if let Ok(Some(m)) = outcome {
            if let MessageBody::PersistenceQueryResponse(q) = &m.body {
                match q {
                    QueryResponse::AuthSuccess(token) => return Ok(token.clone()),
                    QueryResponse::AuthFailed(reason) => {
                        return Err(
                            String::from_str("Authentication failed: ").concat(reason.as_str()),
                        )
                    },
                    _ => {},
                }
            }
        }
        Err(String::from_str("Authentication failed"))
    }

    /// The reply to an authentication request, stamped `now`: the token, or
    /// the generic failure text, published on the request's reply topic.
    pub fn reply_for(incoming: &Message, outcome: &RequestResult, now: u64) -> (r: Message)
        ensures
            answers(r, incoming.id, now),
            match authentication_text(*outcome) {
                Ok(token) => r.body matches MessageBody::AuthenticationResponse(Ok(s)) && s@
                    == token,
                Err(_) => r.body matches MessageBody::AuthenticationResponse(Err(s)) && s@
                    == "Authentication failed"@,
            },
    {
        let response = match Self::authenticate(outcome) {
            Ok(token) => Ok(token),
            Err(_) => Err(String::from_str("Authentication failed")),
        };
        Message::new(
            MessageBody::AuthenticationResponse(response),
            Some(incoming.reply_topic()),
            false,
            now,
        )
    }
}

/// What a build request's persistence outcome becomes.
pub open spec fn build_response_text(outcome: RequestResult) -> Result<Seq<char>, Seq<char>> {
    match outcome {
        Ok(Some(a)) => match content(a).body {
            MessageBody::PersistenceQueryResponse(QueryResponse::CreateBuilding(id)) => Ok(
                crate::ids::uuid_text(id),
            ),
            MessageBody::PersistenceQueryResponse(QueryResponse::CreateBuildingFailed(e)) => Err(
                "Failed to create building: "@ + e@,
            ),
            _ => Err("Unexpected response type"@),
        },
        Ok(None) => Err("No response received from persistence"@),
        Err(e) => Err("Failed to send persistence request: "@ + request_error_text(e)),
    }
}

/// The `BuildResponse` for the outcome of a `CreateBuilding` query: the
/// new building's id, or why it was not created.
pub fn handle_build_request(outcome: &RequestResult) -> (r: MessageBody)
    ensures
        carries_build_response(r, build_response_text(*outcome)),
{
    match outcome {
        Ok(Some(m)) => match &m.body {
            MessageBody::PersistenceQueryResponse(QueryResponse::CreateBuilding(id)) => {
                MessageBody::BuildResponse(Ok(crate::ids::uuid_string(*id)))
            },
            MessageBody::PersistenceQueryResponse(QueryResponse::CreateBuildingFailed(e)) => {
                MessageBody::BuildResponse(
                    Err(String::from_str("Failed to create building: ").concat(e.as_str())),
                )
            },
            _ => MessageBody::BuildResponse(Err(String::from_str("Unexpected response type"))),
        },
        Ok(None) => MessageBody::BuildResponse(
            Err(String::from_str("No response received from persistence")),
        ),
        Err(e) => MessageBody::BuildResponse(
            Err(
                String::from_str("Failed to send persistence request: ").concat(
                    e.describe().as_str(),
                ),
            ),
        ),
    }
}

/// The actor of one inventory.
pub struct InventoryActorHandler {
    pub id: u128,
}

impl InventoryActorHandler {
    /// `in:inventory:<id>`: the topic this actor takes commands on.
    pub fn command_topic(&self) -> (r: String)
        ensures
            r@ == id_topic_text("in:inventory:"@, self.id),
    {
        inventory_in_topic(self.id)
    }

    /// The query an incoming message calls for, stamped `now`: creating the
    /// building for a build request, progressing this inventory's buildings
    /// on a tick, nothing for anything else.
    pub fn query_for(&self, incoming: &Message, now: u64) -> (r: Option<Message>)
        ensures
            match incoming.body {
                MessageBody::BuildRequest { inventory_id, blueprint_slug } => r matches Some(q)
                    && asks_persistence(
                    q,
                    Query::CreateBuilding { inventory_id, blueprint_slug },
                    now,
                ),
                MessageBody::Tick { .. } => r matches Some(q) && asks_persistence(
                    q,
                    Query::ProgressBuildings { inventory_id: self.id },
                    now,
                ),
                _ => r is None,
            },
    {
        match &incoming.body {
            MessageBody::BuildRequest { inventory_id, blueprint_slug } => Some(
                persistence_request(
                    Query::CreateBuilding {
                        inventory_id: *inventory_id,
                        blueprint_slug: blueprint_slug.clone(),
                    },
                    now,
                ),
            ),
            MessageBody::Tick { .. } => Some(
                persistence_request(Query::ProgressBuildings { inventory_id: self.id }, now),
            ),
            _ => None,
        }
    }

    /// The reply an incoming message gets once its query has an outcome,
    /// stamped `now`: a `BuildResponse` on the reply topic for a build
    /// request; none for a tick or anything else.
    pub fn reply_for(&self, incoming: &Message, outcome: &RequestResult, now: u64) -> (r: Option<
        Message,
    >)
        ensures
            incoming.body is BuildRequest ==> (r matches Some(m) && answers(m, incoming.id, now)
                && carries_build_response(m.body, build_response_text(*outcome))),
            !(incoming.body is BuildRequest) ==> r is None,
    {
        match &incoming.body {
            MessageBody::BuildRequest { .. } => Some(
                Message::new(
                    handle_build_request(outcome),
                    Some(incoming.reply_topic()),
                    false,
                    now,
                ),
            ),
            _ => None,
        }
    }
}

/// The ticker: a heartbeat with a sequence number that wraps on overflow.
pub struct TickerActorHandler {
    pub id: u128,
    seq: u64,
}

/// How often the ticker fires, in milliseconds.
pub const TICKER_INTERVAL_MILLISECS: u64 = 1000;

impl TickerActorHandler {
    /// The sequence number of the last tick; 0 before the first.
    pub closed spec fn last_seq(&self) -> u64 {
        self.seq
    }

    pub fn new() -> (r: TickerActorHandler)
        ensures
            r.last_seq() == 0,
    {
        TickerActorHandler { id: fresh_id(), seq: 0 }
    }

    /// The sequence number of the last tick.
    pub fn seq(&self) -> (r: u64)
        ensures
            r == self.last_seq(),
    {
        self.seq
    }

    /// The next heartbeat, stamped `now`: the sequence number advances by
    /// one, wrapping to 0 after `u64::MAX`; published on `ticks`.
    pub fn next_tick(&mut self, now: u64) -> (r: Message)
        ensures
            final(self).last_seq() == if old(self).last_seq() == u64::MAX {
                0
            } else {
                (old(self).last_seq() + 1) as u64
            },
            r.body == (MessageBody::Tick { seq: final(self).last_seq(), timestamp: now }),
            r.topic matches Some(t) && t@ == "ticks"@,
            !r.is_request,
            r.timestamp == now,
    {
        self.seq = self.seq.wrapping_add(1);
        Message::new(
            MessageBody::Tick { seq: self.seq, timestamp: now },
            Some(ticks_topic()),
            false,
            now,
        )
    }
}

impl Default for TickerActorHandler {
    fn default() -> (r: TickerActorHandler)
        ensures
            r.last_seq() == 0,
    {
        TickerActorHandler::new()
    }
}

} // verus!
