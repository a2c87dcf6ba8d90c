use serde_json::Value;
use serenity_gateway::error::{Error, GatewayError};
use serenity_gateway::handshake::{Handshake, HandshakeAction, HandshakeOutcome, HandshakeStep};
use serenity_gateway::model::{
    CurrentUser, Event, GatewayEvent, LoginType, Ready, ReadyEvent, ResumedEvent, UserId,
};
use serenity_gateway::prep::identify;
use serenity_gateway::shard::Shard;
use serenity_gateway::status::GatewayStatus;

fn start(shard_info: Option<[u8; 2]>) -> Handshake {
    Shard::new("wss://gateway.example", "a token", shard_info, LoginType::Bot, "linux").unwrap()
}

fn ready() -> ReadyEvent {
    ReadyEvent {
        ready: Ready {
            session_id: "a session".to_owned(),
            user: CurrentUser { id: UserId(9) },
            data: Value::Null,
        },
    }
}

fn on(handshake: Handshake, outcome: HandshakeOutcome) -> Handshake {
    assert!(handshake.accepts(&outcome));
    match handshake.step(outcome) {
        HandshakeStep::Continue(handshake, None) => handshake,
        other => panic!("{:?}", other),
    }
}

fn failure(handshake: Handshake, outcome: HandshakeOutcome) -> Error {
    assert!(handshake.accepts(&outcome));
    match handshake.step(outcome) {
        HandshakeStep::Failed(error) => error,
        other => panic!("{:?}", other),
    }
}

fn awaiting_hello(shard_info: Option<[u8; 2]>) -> Handshake {
    let handshake = start(shard_info);
    assert_eq!(
        handshake.action(),
        HandshakeAction::Connect("wss://gateway.example/?v=6".to_owned())
    );
    let handshake = on(handshake, HandshakeOutcome::Done);
    assert_eq!(
        handshake.action(),
        HandshakeAction::Send(identify("a token", shard_info, "linux"))
    );
    let handshake = on(handshake, HandshakeOutcome::Done);
    assert_eq!(handshake.action(), HandshakeAction::Receive);
    handshake
}

fn awaiting_ready() -> Handshake {
    let handshake = awaiting_hello(Some([2, 4]));
    let handshake = on(handshake, HandshakeOutcome::Received(GatewayEvent::Hello(41250)));
    assert_eq!(
        handshake.action(),
        HandshakeAction::StartKeepalive(41250, "serenity keepalive [shard 2/3]".to_owned())
    );
    let handshake = on(handshake, HandshakeOutcome::Done);
    assert_eq!(handshake.action(), HandshakeAction::Receive);
    handshake
}

#[test]
fn handshake_goes_well() {
    let handshake = awaiting_ready();
    let outcome = HandshakeOutcome::Received(GatewayEvent::Dispatch(1, Event::Ready(ready())));
    assert!(handshake.accepts(&outcome));
    match handshake.step(outcome) {
        HandshakeStep::Established(shard, told) => {
            assert_eq!(shard.shard_info(), Some([2, 4]));
            assert_eq!(told, ready());
        }
        other => panic!("{:?}", other),
    }
}

#[test]
fn handshake_identifies_a_second_time_but_no_third_time() {
    let invalid = || HandshakeOutcome::Received(GatewayEvent::InvalidateSession);
    let handshake = match awaiting_ready().step(invalid()) {
        HandshakeStep::Continue(handshake, Some(GatewayStatus::SendMessage(message))) => {
            assert_eq!(message, identify("a token", Some([2, 4]), "linux"));
            handshake
        }
        other => panic!("{:?}", other),
    };
    assert_eq!(handshake.action(), HandshakeAction::Receive);
    assert_eq!(
        failure(handshake, invalid()),
        Error::Gateway(GatewayError::InvalidHandshake)
    );
}

#[test]
fn handshake_goes_well_after_a_second_identification() {
    let invalid = HandshakeOutcome::Received(GatewayEvent::InvalidateSession);
    let handshake = match awaiting_ready().step(invalid) {
        HandshakeStep::Continue(handshake, Some(_)) => handshake,
        other => panic!("{:?}", other),
    };
    let outcome = HandshakeOutcome::Received(GatewayEvent::Dispatch(5, Event::Ready(ready())));
    assert!(matches!(handshake.step(outcome), HandshakeStep::Established(..)));
}

#[test]
fn handshake_expects_a_hello() {
    for event in vec![
        GatewayEvent::HeartbeatAck,
        GatewayEvent::Reconnect,
        GatewayEvent::InvalidateSession,
        GatewayEvent::Dispatch(1, Event::Ready(ready())),
    ] {
        assert_eq!(
            failure(awaiting_hello(None), HandshakeOutcome::Received(event)),
            Error::Gateway(GatewayError::ExpectedHello)
        );
    }
}

#[test]
fn handshake_expects_a_session() {
    for event in vec![
        GatewayEvent::HeartbeatAck,
        GatewayEvent::Hello(1),
        GatewayEvent::Dispatch(1, Event::Resumed(ResumedEvent { heartbeat_interval: 3 })),
    ] {
        assert_eq!(
            failure(awaiting_ready(), HandshakeOutcome::Received(event)),
            Error::Gateway(GatewayError::InvalidHandshake)
        );
    }
}

#[test]
fn handshake_hands_failures_on() {
    let failed = || HandshakeOutcome::Failed(Error::Io("refused".to_owned()));
    let error = Error::Io("refused".to_owned());
    assert_eq!(failure(start(None), failed()), error);
    assert_eq!(failure(on(start(None), HandshakeOutcome::Done), failed()), error);
    assert_eq!(failure(awaiting_hello(None), failed()), error);
    assert_eq!(failure(awaiting_ready(), failed()), error);
}

#[test]
fn handshake_names_an_unsharded_thread() {
    let handshake = awaiting_hello(None);
    let handshake = on(handshake, HandshakeOutcome::Received(GatewayEvent::Hello(5)));
    assert_eq!(
        handshake.action(),
        HandshakeAction::StartKeepalive(5, "serenity keepalive [unsharded]".to_owned())
    );
}

#[test]
fn handshake_tells_what_it_accepts() {
    let hello = HandshakeOutcome::Received(GatewayEvent::Hello(5));
    assert!(!start(None).accepts(&hello));
    assert!(start(None).accepts(&HandshakeOutcome::Done));
    assert!(awaiting_hello(None).accepts(&hello));
    assert!(!awaiting_hello(None).accepts(&HandshakeOutcome::Done));
    assert!(awaiting_hello(Some([0, 1])).accepts(&hello));
    assert!(!awaiting_hello(Some([0, 0])).accepts(&hello));
    assert!(awaiting_hello(Some([0, 0]))
        .accepts(&HandshakeOutcome::Received(GatewayEvent::HeartbeatAck)));
}

#[test]
fn handshake_needs_a_url() {
    assert!(matches!(
        Shard::new("no url", "a token", None, LoginType::User, "linux"),
        Err(Error::Gateway(GatewayError::BuildingUrl))
    ));
}

#[test]
fn handshake_starts_with_the_url_that_it_is_given() {
    let handshake = Handshake::with_url(
        "wss://other.example/".to_owned(),
        "wss://gateway.example",
        "a token",
        None,
        LoginType::Bot,
        "linux",
    );
    assert_eq!(
        handshake.action(),
        HandshakeAction::Connect("wss://other.example/".to_owned())
    );
}
