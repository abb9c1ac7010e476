//! The persistence gateway's side of the bus: its status, and the reply
//! each query outcome becomes. Running the queries against the store is
//! the caller's part.
use vstd::prelude::*;

use crate::message::{reply_topic_text, Message, MessageBody, QueryResponse};

verus! {

/// Records kept by the store, as far as the bus knows them.
#[derive(Debug, Clone, Copy, PartialEq, Eq, Structural)]
pub enum PersistenceRecord {
    Dummy,
}

/// Whether the gateway is subscribed yet.
#[derive(Debug, Clone, Copy, PartialEq, Eq, Structural)]
pub enum HandlerStatus {
    Initialized,
    Listening,
}

/// The progress state of a building, as the store writes it.
#[derive(Debug, Clone, Copy, PartialEq, Eq, Structural)]
pub enum BuildingStatus {
    InProgress,
    Completed,
    Stopped,
}

/// The text the store keeps for a building status.
pub open spec fn building_status_text(s: BuildingStatus) -> Seq<char> {
    match s {
        BuildingStatus::InProgress => "in_progress"@,
        BuildingStatus::Completed => "completed"@,
        BuildingStatus::Stopped => "stopped"@,
    }
}

impl BuildingStatus {
    /// The status a stored text names; an unknown text counts as in progress.
    pub fn from_text(s: &str) -> (r: BuildingStatus)
        ensures
            s@ == "completed"@ ==> r == BuildingStatus::Completed,
            s@ == "stopped"@ ==> r == BuildingStatus::Stopped,
            s@ != "completed"@ && s@ != "stopped"@ ==> r == BuildingStatus::InProgress,
    {
        proof {
            reveal_strlit("completed");
            reveal_strlit("stopped");
            assert("completed"@.len() != "stopped"@.len());
        }
        let t = String::from_str(s);
        if t == String::from_str("completed") {
            BuildingStatus::Completed
        } else if t == String::from_str("stopped") {
            BuildingStatus::Stopped
        } else {
            BuildingStatus::InProgress
        }
    }

    /// The text the store keeps for this status.
    pub fn to_text(&self) -> (r: String)
        ensures
            r@ == building_status_text(*self),
    {
        match self {
            BuildingStatus::InProgress => String::from_str("in_progress"),
            BuildingStatus::Completed => String::from_str("completed"),
            BuildingStatus::Stopped => String::from_str("stopped"),
        }
    }
}

/// The persistence gateway.
pub struct PersistenceHandler {
    pub status: HandlerStatus,
}

impl PersistenceHandler {
    pub fn new() -> (r: PersistenceHandler)
        ensures
            r.status == HandlerStatus::Initialized,
    {
        PersistenceHandler { status: HandlerStatus::Initialized }
    }

    /// The gateway has subscribed to its topic.
    pub fn mark_listening(&mut self)
        ensures
            final(self).status == HandlerStatus::Listening,
    {
        self.status = HandlerStatus::Listening;
    }

    /// The reply to `GetInventoryIds`.
    pub fn get_inventory_ids(result: Result<Vec<u128>, String>) -> (r: MessageBody)
        ensures
            r == MessageBody::PersistenceQueryResponse(
                match result {
                    Ok(ids) => QueryResponse::GetInventoryIds(ids),
                    Err(e) => QueryResponse::GetInventoryIdsFailed(e),
                },
            ),
    {
        MessageBody::PersistenceQueryResponse(
            match result {
                Ok(ids) => QueryResponse::GetInventoryIds(ids),
                Err(e) => QueryResponse::GetInventoryIdsFailed(e),
            },
        )
    }

    /// The reply to `GetInventoryForUser`.
    pub fn get_inventory_id_for_user(result: Result<u128, String>) -> (r: MessageBody)
        ensures
            r == MessageBody::PersistenceQueryResponse(
                match result {
                    Ok(id) => QueryResponse::GetInventoryIdForUser(id),
                    Err(e) => QueryResponse::GetInventoryIdForUserFailed(e),
                },
            ),
    {
        MessageBody::PersistenceQueryResponse(
            match result {
                Ok(id) => QueryResponse::GetInventoryIdForUser(id),
                Err(e) => QueryResponse::GetInventoryIdForUserFailed(e),
            },
        )
    }

    /// The reply to `Auth`. `token` is `None` when the credentials matched no
    /// account, and otherwise the outcome of issuing a token for it.
    pub fn auth_user(token: Option<Result<String, String>>) -> (r: MessageBody)
        ensures
            match token {
                None => r matches MessageBody::PersistenceQueryResponse(
                    QueryResponse::AuthFailed(s),
                ) && s@ == "Authentication failed"@,
                Some(Ok(t)) => r == MessageBody::PersistenceQueryResponse(
                    QueryResponse::AuthSuccess(t),
                ),
                Some(Err(e)) => r matches MessageBody::PersistenceQueryResponse(
                    QueryResponse::AuthFailed(s),
                ) && s@ == "Token generation failed: "@ + e@,
            },
    {
        MessageBody::PersistenceQueryResponse(
            match token {
                None => QueryResponse::AuthFailed(String::from_str("Authentication failed")),
                Some(Ok(t)) => QueryResponse::AuthSuccess(t),
                Some(Err(e)) => QueryResponse::AuthFailed(
                    String::from_str("Token generation failed: ").concat(e.as_str()),
                ),
            },
        )
    }

    /// The reply to `CreateBuilding`.
    pub fn create_building(result: Result<u128, String>) -> (r: MessageBody)
        ensures
            r == MessageBody::PersistenceQueryResponse(
                match result {
                    Ok(id) => QueryResponse::CreateBuilding(id),
                    Err(e) => QueryResponse::CreateBuildingFailed(e),
                },
            ),
    {
        MessageBody::PersistenceQueryResponse(
            match result {
                Ok(id) => QueryResponse::CreateBuilding(id),
                Err(e) => QueryResponse::CreateBuildingFailed(e),
            },
        )
    }

    /// The reply to `ProgressBuildings` of `inventory_id`: the inventory's id
    /// when the store was updated.
    pub fn progress_buildings(inventory_id: u128, result: Result<(), String>) -> (r: MessageBody)
        ensures
            r == MessageBody::PersistenceQueryResponse(
                match result {
                    Ok(()) => QueryResponse::CreateBuilding(inventory_id),
                    Err(e) => QueryResponse::CreateBuildingFailed(e),
                },
            ),
    {
        MessageBody::PersistenceQueryResponse(
            match result {
                Ok(()) => QueryResponse::CreateBuilding(inventory_id),
                Err(e) => QueryResponse::CreateBuildingFailed(e),
            },
        )
    }

    /// `body`, published one-way on the reply topic of `incoming`, stamped
    /// `now`.
    pub fn reply(incoming: &Message, body: MessageBody, now: u64) -> (r: Message)
        ensures
            r.body == body,
            r.topic matches Some(t) && t@ == reply_topic_text(incoming.id),
            !r.is_request,
            r.timestamp == now,
    {
        Message::new(body, Some(incoming.reply_topic()), false, now)
    }
}

impl Default for PersistenceHandler {
    fn default() -> (r: PersistenceHandler)
        ensures
            r.status == HandlerStatus::Initialized,
    {
        PersistenceHandler::new()
    }
}

} // verus!
