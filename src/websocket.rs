//! The WebSocket adapter's decisions: which topics a connection listens
//! on, how a frame becomes a bus request, and how a bus message becomes a
//! response frame. The socket itself, and the JSON, are the caller's part.
use vstd::prelude::*;

use crate::actors::{asks_persistence, persistence_request, query_response};
use crate::message::{
    account_out_topic, id_topic_text, inventory_in_topic, inventory_out_topic, Message,
    MessageBody, Query, QueryResponse,
};
use crate::overlay::RequestResult;

verus! {

/// What a client may ask for.
#[derive(Debug, PartialEq, Eq)]
pub enum RtcRequestBody {
    /// Build the blueprint with this slug in the user's inventory.
    Build { blueprint: String },
}

/// A frame received from a client.
#[derive(Debug, PartialEq, Eq)]
pub struct RtcRequest {
    pub body: RtcRequestBody,
}

/// A frame sent to a client.
#[derive(Debug, PartialEq, Eq)]
pub struct RtcResponse {
    pub id: u128,
    pub success: bool,
    pub message: Option<String>,
}

/// The message's body has no response frame.
#[derive(Debug, Clone, Copy, PartialEq, Eq, Structural)]
pub struct UnsupportedBody;

/// The optional topic `topic:<name>`; the names `""` and `"none"` mean no topic.
pub open spec fn topic_text(name: Seq<char>) -> Option<Seq<char>> {
    if name.len() == 0 || name == "none"@ {
        None
    } else {
        Some("topic:"@ + name)
    }
}

/// The topic named `name`, if any.
pub fn topic(name: &str) -> (r: Option<String>)
    ensures
        match topic_text(name@) {
            None => r is None,
            Some(t) => r matches Some(s) && s@ == t,
        },
{
    if name.is_empty() || String::from_str(name) == String::from_str("none") {
        None
    } else {
        Some(String::from_str("topic:").concat(name))
    }
}

impl RtcResponse {
    /// The response frame for a reply message: the outcome of an
    /// authentication or a build; other bodies have none.
    pub fn from_message(msg: &Message) -> (r: Result<RtcResponse, UnsupportedBody>)
        ensures
            match msg.body {
                MessageBody::AuthenticationResponse(Ok(s)) | MessageBody::BuildResponse(Ok(s)) => r
                    == Ok::<RtcResponse, UnsupportedBody>(
                    RtcResponse { id: msg.id, success: true, message: Some(s) },
                ),
                MessageBody::AuthenticationResponse(Err(s)) | MessageBody::BuildResponse(Err(s)) => r
                    == Ok::<RtcResponse, UnsupportedBody>(
                    RtcResponse { id: msg.id, success: false, message: Some(s) },
                ),
                _ => r is Err,
            },
    {
        match &msg.body {
            MessageBody::AuthenticationResponse(result) | MessageBody::BuildResponse(result) => {
                match result {
                    Ok(s) => Ok(RtcResponse { id: msg.id, success: true, message: Some(s.clone()) }),
                    Err(s) => Ok(
                        RtcResponse { id: msg.id, success: false, message: Some(s.clone()) },
                    ),
                }
            },
            _ => Err(UnsupportedBody),
        }
    }

    /// A failure frame with the given id and text.
    pub fn failure(id: u128, message: String) -> (r: RtcResponse)
        ensures
            r == (RtcResponse { id, success: false, message: Some(message) }),
    {
        RtcResponse { id, success: false, message: Some(message) }
    }
}

/// The topics a user's connection listens on, in this order: `global`,
/// `out:account:<user>`, `out:inventory:<inventory>`.
pub fn connection_topics(user_id: u128, inventory_id: u128) -> (r: Vec<String>)
    ensures
        r@.len() == 3,
        r@[0]@ == "global"@,
        r@[1]@ == id_topic_text("out:account:"@, user_id),
        r@[2]@ == id_topic_text("out:inventory:"@, inventory_id),
{
    let mut r: Vec<String> = Vec::new();
    r.push(String::from_str("global"));
    r.push(account_out_topic(user_id));
    r.push(inventory_out_topic(inventory_id));
    r
}

/// The bus request a client frame becomes, stamped `now`: a build request
/// for the connection's inventory, on that inventory's command topic.
pub fn bus_request(inventory_id: u128, request: RtcRequest, now: u64) -> (r: Message)
    ensures
        r.is_request,
        r.timestamp == now,
        r.topic matches Some(t) && t@ == id_topic_text("in:inventory:"@, inventory_id),
        match request.body {
            RtcRequestBody::Build { blueprint } => r.body == (MessageBody::BuildRequest {
                inventory_id,
                blueprint_slug: blueprint,
            }),
        },
{
    match request.body {
        RtcRequestBody::Build { blueprint } => Message::new(
            MessageBody::BuildRequest { inventory_id, blueprint_slug: blueprint },
            Some(inventory_in_topic(inventory_id)),
            true,
            now,
        ),
    }
}

/// The query for the inventory of a user, stamped `now`, on the
/// persistence gateway's topic.
pub fn inventory_query(user_id: u128, now: u64) -> (r: Message)
    ensures
        asks_persistence(r, Query::GetInventoryForUser { user_id }, now),
{
    persistence_request(Query::GetInventoryForUser { user_id }, now)
}

/// What the reply to `inventory_query` says.
pub open spec fn inventory_id_text(outcome: RequestResult) -> Result<u128, Seq<char>> {
    match outcome {
        Err(e) => Err(crate::actors::request_error_text(e)),
        Ok(None) => Err("No response received for inventory ID request"@),
        Ok(Some(_)) => match query_response(outcome) {
            Some(QueryResponse::GetInventoryIdForUser(id)) => Ok(id),
            Some(QueryResponse::GetInventoryIdForUserFailed(e)) => Err(e@),
            Some(_) => Err("Unexpected query response for GetInventoryForUser"@),
            None => Err("Unexpected message body in response for GetInventoryForUser"@),
        },
    }
}

/// The user's inventory id from the reply to `inventory_query`, or why
/// there is none.
pub fn inventory_id_from(outcome: &RequestResult) -> (r: Result<u128, String>)
    ensures
        match inventory_id_text(*outcome) {
            Ok(id) => r == Ok::<u128, String>(id),
            Err(e) => r matches Err(s) && s@ == e,
        },
{
    match outcome {
        Err(e) => Err(e.describe()),
        Ok(None) => Err(String::from_str("No response received for inventory ID request")),
        Ok(Some(m)) => match &m.body {
            MessageBody::PersistenceQueryResponse(q) => match q {
                QueryResponse::GetInventoryIdForUser(id) => Ok(*id),
                QueryResponse::GetInventoryIdForUserFailed(e) => Err(e.clone()),
                _ => Err(String::from_str("Unexpected query response for GetInventoryForUser")),
            },
            _ => Err(
                String::from_str("Unexpected message body in response for GetInventoryForUser"),
            ),
        },
    }
}

} // verus!
