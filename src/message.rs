//! The message envelope, its body variants and the well-known topics.
use vstd::prelude::*;

use crate::ids::{fresh_id, is_v4, uuid_string, uuid_text};

verus! {

/// A query for the persistence gateway.
#[derive(Debug, Clone, PartialEq, Eq)]
pub enum Query {
    Auth { username: String, password: String },
    GetInventoryIds,
    GetInventoryForUser { user_id: u128 },
    CreateBuilding { inventory_id: u128, blueprint_slug: String },
    ProgressBuildings { inventory_id: u128 },
}

/// The persistence gateway's answer to a `Query`.
#[derive(Debug, Clone, PartialEq, Eq)]
pub enum QueryResponse {
    AuthSuccess(String),
    AuthFailed(String),
    GetInventoryIds(Vec<u128>),
    GetInventoryIdsFailed(String),
    GetInventoryIdForUser(u128),
    GetInventoryIdForUserFailed(String),
    CreateBuilding(u128),
    CreateBuildingFailed(String),
}

/// The closed set of bodies the bus carries.
#[derive(Debug, PartialEq, Eq)]
pub enum MessageBody {
    /// Lifecycle sentinel: ends dispatch; its topic is ignored.
    Stop,
    AuthenticationRequest { user: String, password: String },
    AuthenticationResponse(Result<String, String>),
    BuildRequest { inventory_id: u128, blueprint_slug: String },
    BuildResponse(Result<String, String>),
    PersistenceQueryRequest(Query),
    PersistenceQueryResponse(QueryResponse),
    /// Heartbeat: sequence number and wall-clock time in milliseconds.
    Tick { seq: u64, timestamp: u64 },
    Empty,
    DebugMessage(String),
}

/// A message envelope. Once published it is shared, never copied: every
/// subscriber that receives it holds the same value.
#[derive(Debug, PartialEq, Eq)]
pub struct Message {
    pub id: u128,
    pub body: MessageBody,
    pub topic: Option<String>,
    pub is_request: bool,
    /// Milliseconds since the Unix epoch.
    pub timestamp: u64,
}

/// The topic on which a reply to the message with id `id` is published.
pub open spec fn reply_topic_text(id: u128) -> Seq<char> {
    "reply-"@ + uuid_text(id)
}

impl Message {
    /// A new envelope with a fresh random version-4 id, stamped `timestamp`
    /// (milliseconds since the Unix epoch).
    pub fn new(body: MessageBody, topic: Option<String>, is_request: bool, timestamp: u64) -> (r:
        Message)
        ensures
            r.body == body,
            r.topic == topic,
            r.is_request == is_request,
            r.timestamp == timestamp,
            is_v4(r.id),
    {
        Message { id: fresh_id(), body, topic, is_request, timestamp }
    }

    /// A new envelope that asks for a reply.
    pub fn new_request(body: MessageBody, topic: Option<String>, timestamp: u64) -> (r: Message)
        ensures
            r.body == body,
            r.topic == topic,
            r.is_request,
            r.timestamp == timestamp,
            is_v4(r.id),
    {
        Message::new(body, topic, true, timestamp)
    }

    /// `reply-<id>`: the topic a reply to this message is published on. It
    /// depends on the id alone.
    pub fn reply_topic(&self) -> (r: String)
        ensures
            r@ == reply_topic_text(self.id),
    {
        proof {
            reveal_strlit("reply-");
        }
        String::from_str("reply-").concat(uuid_string(self.id).as_str())
    }

    /// Whether the body is the stop sentinel.
    pub fn is_stop(&self) -> (r: bool)
        ensures
            r <==> self.body is Stop,
    {
        match self.body {
            MessageBody::Stop => true,
            _ => false,
        }
    }
}

/// `prefix` followed by the text of `id`.
pub open spec fn id_topic_text(prefix: Seq<char>, id: u128) -> Seq<char> {
    prefix + uuid_text(id)
}

fn id_topic(prefix: &str, id: u128) -> (r: String)
    ensures
        r@ == id_topic_text(prefix@, id),
{
    String::from_str(prefix).concat(uuid_string(id).as_str())
}

/// `in:inventory:<id>`: commands for one inventory.
pub fn inventory_in_topic(id: u128) -> (r: String)
    ensures
        r@ == id_topic_text("in:inventory:"@, id),
{
    id_topic("in:inventory:", id)
}

/// `out:inventory:<id>`: events about one inventory, for its owner's connection.
pub fn inventory_out_topic(id: u128) -> (r: String)
    ensures
        r@ == id_topic_text("out:inventory:"@, id),
{
    id_topic("out:inventory:", id)
}

/// `out:account:<id>`: events for one user's connection.
pub fn account_out_topic(id: u128) -> (r: String)
    ensures
        r@ == id_topic_text("out:account:"@, id),
{
    id_topic("out:account:", id)
}

} // verus!
