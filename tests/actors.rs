use std::sync::Arc;

use an_daghdha::actors::{handle_build_request, AuthActorHandler, InventoryActorHandler, TickerActorHandler};
use an_daghdha::auth::{check_authorization, login_outcome, login_request};
use an_daghdha::broker::SendError;
use an_daghdha::message::{Message, MessageBody, Query, QueryResponse};
use an_daghdha::overlay::{RequestError, RequestResult};
use an_daghdha::persistence::{BuildingStatus, HandlerStatus, PersistenceHandler};
use an_daghdha::websocket::{bus_request, connection_topics, inventory_id_from, inventory_query, topic, RtcRequest, RtcRequestBody, RtcResponse};

const ID: u128 = 0x123e4567_e89b_12d3_a456_426614174000;

fn reply(body: MessageBody) -> RequestResult {
    Ok(Some(Arc::new(Message { id: 5, body, topic: Some("reply-x".to_string()), is_request: false, timestamp: 0 })))
}

fn query_reply(q: QueryResponse) -> RequestResult {
    reply(MessageBody::PersistenceQueryResponse(q))
}

#[test]
fn authenticate_reads_the_token() {
    assert_eq!(AuthActorHandler::authenticate(&query_reply(QueryResponse::AuthSuccess("tok".to_string()))), Ok("tok".to_string()));
    assert_eq!(
        AuthActorHandler::authenticate(&query_reply(QueryResponse::AuthFailed("bad".to_string()))),
        Err("Authentication failed: bad".to_string())
    );
    assert_eq!(AuthActorHandler::authenticate(&Ok(None)), Err("Authentication failed".to_string()));
    assert_eq!(AuthActorHandler::authenticate(&Err(RequestError::Timeout)), Err("Authentication failed".to_string()));
}

#[test]
fn auth_reply_goes_to_the_reply_topic() {
    let incoming = Message { id: ID, body: MessageBody::AuthenticationRequest { user: "u".to_string(), password: "p".to_string() }, topic: Some("auth".to_string()), is_request: true, timestamp: 0 };
    let q = AuthActorHandler::query_for(&incoming, 77).unwrap();
    assert_eq!(q.body, MessageBody::PersistenceQueryRequest(Query::Auth { username: "u".to_string(), password: "p".to_string() }));
    assert_eq!(q.topic.as_deref(), Some("persistence"));
    assert!(q.is_request);
    assert_eq!(q.timestamp, 77);
    let ok = AuthActorHandler::reply_for(&incoming, &query_reply(QueryResponse::AuthSuccess("T".to_string())), 78);
    assert_eq!(ok.timestamp, 78);
    assert_eq!(ok.body, MessageBody::AuthenticationResponse(Ok("T".to_string())));
    assert_eq!(ok.topic.as_deref(), Some("reply-123e4567-e89b-12d3-a456-426614174000"));
    assert!(!ok.is_request);
    let failed = AuthActorHandler::reply_for(&incoming, &query_reply(QueryResponse::AuthFailed("no".to_string())), 79);
    assert_eq!(failed.body, MessageBody::AuthenticationResponse(Err("Authentication failed".to_string())));
    let other = Message { id: ID, body: MessageBody::Empty, topic: None, is_request: false, timestamp: 0 };
    assert!(AuthActorHandler::query_for(&other, 0).is_none());
}

#[test]
fn inventory_ids_from_reply() {
    assert_eq!(AuthActorHandler::get_inventory_ids(&query_reply(QueryResponse::GetInventoryIds(vec![1, 2, 3]))), vec![1, 2, 3]);
    assert!(AuthActorHandler::get_inventory_ids(&query_reply(QueryResponse::GetInventoryIdsFailed("x".to_string()))).is_empty());
    assert!(AuthActorHandler::get_inventory_ids(&Ok(None)).is_empty());
    let q = AuthActorHandler::inventory_ids_query(5);
    assert_eq!(q.body, MessageBody::PersistenceQueryRequest(Query::GetInventoryIds));
}

#[test]
fn build_response_texts() {
    assert_eq!(
        handle_build_request(&query_reply(QueryResponse::CreateBuilding(ID))),
        MessageBody::BuildResponse(Ok("123e4567-e89b-12d3-a456-426614174000".to_string()))
    );
    assert_eq!(
        handle_build_request(&query_reply(QueryResponse::CreateBuildingFailed("db down".to_string()))),
        MessageBody::BuildResponse(Err("Failed to create building: db down".to_string()))
    );
    assert_eq!(
        handle_build_request(&query_reply(QueryResponse::AuthFailed("x".to_string()))),
        MessageBody::BuildResponse(Err("Unexpected response type".to_string()))
    );
    assert_eq!(
        handle_build_request(&Ok(None)),
        MessageBody::BuildResponse(Err("No response received from persistence".to_string()))
    );
    assert_eq!(
        handle_build_request(&Err(RequestError::Timeout)),
        MessageBody::BuildResponse(Err("Failed to send persistence request: Timeout waiting for reply".to_string()))
    );
    assert_eq!(
        handle_build_request(&Err(RequestError::Send(SendError::Closed))),
        MessageBody::BuildResponse(Err("Failed to send persistence request: channel closed".to_string()))
    );
}

#[test]
fn inventory_actor_queries_and_replies() {
    let actor = InventoryActorHandler { id: ID };
    assert_eq!(actor.command_topic(), "in:inventory:123e4567-e89b-12d3-a456-426614174000");
    let build = Message { id: 9, body: MessageBody::BuildRequest { inventory_id: ID, blueprint_slug: "farm".to_string() }, topic: None, is_request: true, timestamp: 0 };
    let q = actor.query_for(&build, 1).unwrap();
    assert_eq!(q.body, MessageBody::PersistenceQueryRequest(Query::CreateBuilding { inventory_id: ID, blueprint_slug: "farm".to_string() }));
    let r = actor.reply_for(&build, &query_reply(QueryResponse::CreateBuilding(1)), 2).unwrap();
    assert_eq!(r.body, MessageBody::BuildResponse(Ok("00000000-0000-0000-0000-000000000001".to_string())));
    assert_eq!(r.topic.as_deref(), Some("reply-00000000-0000-0000-0000-000000000009"));
    let tick = Message { id: 10, body: MessageBody::Tick { seq: 1, timestamp: 0 }, topic: Some("ticks".to_string()), is_request: false, timestamp: 0 };
    let q = actor.query_for(&tick, 3).unwrap();
    assert_eq!(q.body, MessageBody::PersistenceQueryRequest(Query::ProgressBuildings { inventory_id: ID }));
    assert!(actor.reply_for(&tick, &Ok(None), 4).is_none());
}

#[test]
fn ticker_counts_up() {
    let mut t = TickerActorHandler::new();
    assert_eq!(t.seq(), 0);
    let m = t.next_tick(1000);
    assert_eq!(m.body, MessageBody::Tick { seq: 1, timestamp: 1000 });
    assert_eq!(m.topic.as_deref(), Some("ticks"));
    let m = t.next_tick(2000);
    assert_eq!(m.body, MessageBody::Tick { seq: 2, timestamp: 2000 });
    assert_eq!(TickerActorHandler::default().seq(), 0);
}

#[test]
fn persistence_replies() {
    let mut h = PersistenceHandler::new();
    assert_eq!(h.status, HandlerStatus::Initialized);
    h.mark_listening();
    assert_eq!(h.status, HandlerStatus::Listening);
    assert_eq!(
        PersistenceHandler::auth_user(None),
        MessageBody::PersistenceQueryResponse(QueryResponse::AuthFailed("Authentication failed".to_string()))
    );
    assert_eq!(
        PersistenceHandler::auth_user(Some(Err("bad key".to_string()))),
        MessageBody::PersistenceQueryResponse(QueryResponse::AuthFailed("Token generation failed: bad key".to_string()))
    );
    assert_eq!(
        PersistenceHandler::auth_user(Some(Ok("tok".to_string()))),
        MessageBody::PersistenceQueryResponse(QueryResponse::AuthSuccess("tok".to_string()))
    );
    assert_eq!(
        PersistenceHandler::progress_buildings(ID, Ok(())),
        MessageBody::PersistenceQueryResponse(QueryResponse::CreateBuilding(ID))
    );
    assert_eq!(
        PersistenceHandler::get_inventory_ids(Err("e".to_string())),
        MessageBody::PersistenceQueryResponse(QueryResponse::GetInventoryIdsFailed("e".to_string()))
    );
    let incoming = Message { id: ID, body: MessageBody::Empty, topic: None, is_request: true, timestamp: 0 };
    let r = PersistenceHandler::reply(&incoming, PersistenceHandler::create_building(Ok(3)), 12);
    assert_eq!(r.topic.as_deref(), Some("reply-123e4567-e89b-12d3-a456-426614174000"));
    assert_eq!(r.body, MessageBody::PersistenceQueryResponse(QueryResponse::CreateBuilding(3)));
}

#[test]
fn rtc_frames() {
    let ok = Message { id: ID, body: MessageBody::BuildResponse(Ok("b".to_string())), topic: None, is_request: false, timestamp: 0 };
    assert_eq!(RtcResponse::from_message(&ok), Ok(RtcResponse { id: ID, success: true, message: Some("b".to_string()) }));
    let err = Message { id: ID, body: MessageBody::AuthenticationResponse(Err("no".to_string())), topic: None, is_request: false, timestamp: 0 };
    assert_eq!(RtcResponse::from_message(&err), Ok(RtcResponse { id: ID, success: false, message: Some("no".to_string()) }));
    let other = Message { id: ID, body: MessageBody::Empty, topic: None, is_request: false, timestamp: 0 };
    assert!(RtcResponse::from_message(&other).is_err());
    let m = bus_request(ID, RtcRequest { body: RtcRequestBody::Build { blueprint: "example_blueprint".to_string() } }, 6);
    assert_eq!(m.body, MessageBody::BuildRequest { inventory_id: ID, blueprint_slug: "example_blueprint".to_string() });
    assert_eq!(m.topic.as_deref(), Some("in:inventory:123e4567-e89b-12d3-a456-426614174000"));
    assert!(m.is_request);
    assert_eq!(
        connection_topics(1, 2),
        vec![
            "global".to_string(),
            "out:account:00000000-0000-0000-0000-000000000001".to_string(),
            "out:inventory:00000000-0000-0000-0000-000000000002".to_string()
        ]
    );
}

#[test]
fn topic_names() {
    assert_eq!(topic(""), None);
    assert_eq!(topic("none"), None);
    assert_eq!(topic("persistence"), Some("topic:persistence".to_string()));
    let q = inventory_query(1, 8);
    assert_eq!(q.topic.as_deref(), Some("persistence"));
    assert_eq!(q.body, MessageBody::PersistenceQueryRequest(Query::GetInventoryForUser { user_id: 1 }));
    assert_eq!(q.timestamp, 8);
}

#[test]
fn inventory_id_from_replies() {
    assert_eq!(inventory_id_from(&query_reply(QueryResponse::GetInventoryIdForUser(ID))), Ok(ID));
    assert_eq!(inventory_id_from(&query_reply(QueryResponse::GetInventoryIdForUserFailed("none".to_string()))), Err("none".to_string()));
    assert_eq!(
        inventory_id_from(&query_reply(QueryResponse::GetInventoryIds(vec![]))),
        Err("Unexpected query response for GetInventoryForUser".to_string())
    );
    assert_eq!(
        inventory_id_from(&reply(MessageBody::Empty)),
        Err("Unexpected message body in response for GetInventoryForUser".to_string())
    );
    assert_eq!(inventory_id_from(&Ok(None)), Err("No response received for inventory ID request".to_string()));
}

#[test]
fn login_answers() {
    let r = login_request("u".to_string(), "p".to_string(), 9);
    assert_eq!(r.topic.as_deref(), Some("auth"));
    assert!(r.is_request);
    let ok = login_outcome(&reply(MessageBody::AuthenticationResponse(Ok("tok".to_string()))));
    assert!(ok.success);
    assert_eq!(ok.message, "tok");
    let no = login_outcome(&reply(MessageBody::AuthenticationResponse(Err("x".to_string()))));
    assert!(!no.success);
    assert_eq!(no.message, "Authentication failed");
    assert!(!login_outcome(&Err(RequestError::Timeout)).success);
}

#[test]
fn bearer_header_check() {
    let r = check_authorization(Some("Bearer  abc.def  "));
    assert!(r.authorized);
    assert_eq!(r.message, "abc.def");
    let r = check_authorization(Some("Bearer Bearer tok"));
    assert!(r.authorized);
    assert_eq!(r.message, "tok");
    let r = check_authorization(Some("Basic xyz"));
    assert!(!r.authorized);
    assert_eq!(r.message, "Missing or invalid Authorization header");
    assert!(!check_authorization(None).authorized);
    assert!(!check_authorization(Some("Bearer")).authorized);
}

#[test]
fn building_status_texts() {
    assert_eq!(BuildingStatus::from_text("completed"), BuildingStatus::Completed);
    assert_eq!(BuildingStatus::from_text("stopped"), BuildingStatus::Stopped);
    assert_eq!(BuildingStatus::from_text("in_progress"), BuildingStatus::InProgress);
    assert_eq!(BuildingStatus::from_text("anything"), BuildingStatus::InProgress);
    assert_eq!(BuildingStatus::InProgress.to_text(), "in_progress");
    assert_eq!(BuildingStatus::Completed.to_text(), "completed");
    assert_eq!(BuildingStatus::Stopped.to_text(), "stopped");
}
