use serde_json::Value;
use serenity_gateway::error::{Error, GatewayError};
use serenity_gateway::events::{Handled, Next, VoiceUpdate};
use serenity_gateway::handshake::{HandshakeOutcome, HandshakeStep};
use serenity_gateway::model::{
    ChannelId, CurrentUser, Event, Game, GatewayEvent, GuildId, LoginType, OnlineStatus, Ready,
    ReadyEvent, ResumedEvent, UnknownEvent, UserId, VoiceServerUpdateEvent, VoiceStateUpdateEvent,
};
use serenity_gateway::payload;
use serenity_gateway::prep::identify;
use serenity_gateway::recovery::{Recovery, RecoveryAction, RecoveryOutcome, RecoveryStep};
use serenity_gateway::shard::Shard;
use serenity_gateway::shutdown::{CloseFrame, ShutdownAction, ShutdownStep};
use serenity_gateway::status::GatewayStatus;

fn ready(session_id: &str) -> ReadyEvent {
    ReadyEvent {
        ready: Ready {
            session_id: session_id.to_owned(),
            user: CurrentUser { id: UserId(9) },
            data: Value::Null,
        },
    }
}

fn shard_at(base_url: &str, session_id: &str, sequence: u64) -> Shard {
    let mut handshake =
        Shard::new(base_url, "a token", Some([2, 4]), LoginType::Bot, "linux").unwrap();
    for outcome in vec![
        HandshakeOutcome::Done,
        HandshakeOutcome::Done,
        HandshakeOutcome::Received(GatewayEvent::Hello(41250)),
        HandshakeOutcome::Done,
    ] {
        assert!(handshake.accepts(&outcome));
        handshake = match handshake.step(outcome) {
            HandshakeStep::Continue(handshake, _) => handshake,
            other => panic!("{:?}", other),
        };
    }
    let outcome =
        HandshakeOutcome::Received(GatewayEvent::Dispatch(sequence, Event::Ready(ready(session_id))));
    assert!(handshake.accepts(&outcome));
    match handshake.step(outcome) {
        HandshakeStep::Established(shard, _) => shard,
        other => panic!("{:?}", other),
    }
}

fn shard() -> Shard {
    shard_at("wss://gateway.example", "a session", 1)
}

fn presence(game: Option<&str>, status: OnlineStatus, afk: bool) -> GatewayStatus {
    GatewayStatus::SendMessage(payload::status_update(&game.map(Game::playing), status, afk))
}

fn unknown() -> Event {
    Event::Unknown(UnknownEvent { kind: "TYPING_START".to_owned(), value: Value::U64(3) })
}

fn returned(handled: Handled) -> (Vec<GatewayStatus>, Result<Option<Event>, Error>) {
    match handled.next {
        Next::Return(result) => (handled.statuses, result),
        other => panic!("{:?}", other),
    }
}

fn recovery(handled: Handled) -> Recovery {
    assert!(handled.statuses.is_empty());
    match handled.next {
        Next::Recover(recovery) => recovery,
        other => panic!("{:?}", other),
    }
}

fn on(shard: &mut Shard, recovery: Recovery, outcome: RecoveryOutcome) -> Recovery {
    assert!(recovery.accepts(&outcome));
    match shard.recover(recovery, outcome) {
        RecoveryStep::Continue(recovery) => recovery,
        other => panic!("{:?}", other),
    }
}

fn finish(
    shard: &mut Shard,
    recovery: Recovery,
    outcome: RecoveryOutcome,
) -> (Option<GatewayStatus>, Result<Event, Error>) {
    assert!(recovery.accepts(&outcome));
    match shard.recover(recovery, outcome) {
        RecoveryStep::Finish(notice, result) => (notice, result),
        other => panic!("{:?}", other),
    }
}

fn failed(text: &str) -> RecoveryOutcome {
    RecoveryOutcome::Failed(Error::Io(text.to_owned()))
}

fn lose(shard: &mut Shard) -> Recovery {
    recovery(shard.handle_event(Err(Error::WebSocket("broken".to_owned()))))
}

fn assert_drops(shard: &Shard, recovery: &Recovery) {
    assert!(matches!(shard.recovery_action(recovery), RecoveryAction::Drop));
}

fn assert_opens(shard: &Shard, recovery: &Recovery) {
    assert!(matches!(shard.recovery_action(recovery), RecoveryAction::Open(Ok(_))));
}

#[test]
fn a_new_shard_is_online() {
    let mut shard = shard();
    assert_eq!(shard.shard_info(), Some([2, 4]));
    assert_eq!(shard.set_afk(false), presence(None, OnlineStatus::Online, false));
}

#[test]
fn setters_keep_the_rest_of_the_presence() {
    let mut shard = shard();
    assert_eq!(shard.set_afk(true), presence(None, OnlineStatus::Online, true));
    assert_eq!(
        shard.set_game(Some(Game::playing("chess"))),
        presence(Some("chess"), OnlineStatus::Online, true)
    );
    assert_eq!(
        shard.set_status(OnlineStatus::Idle),
        presence(Some("chess"), OnlineStatus::Idle, true)
    );
    assert_eq!(shard.set_game(None), presence(None, OnlineStatus::Idle, true));
    assert_eq!(shard.set_afk(false), presence(None, OnlineStatus::Idle, false));
}

#[test]
fn nobody_is_offline() {
    let mut shard = shard();
    assert_eq!(
        shard.set_status(OnlineStatus::Offline),
        presence(None, OnlineStatus::Invisible, false)
    );
    assert_eq!(
        shard.set_presence(Some(Game::playing("go")), OnlineStatus::Offline, true),
        presence(Some("go"), OnlineStatus::Invisible, true)
    );
}

#[test]
fn to_set_the_presence_is_to_set_its_parts() {
    let mut whole = shard();
    let mut parts = shard();
    let _ = parts.set_game(Some(Game::playing("Heroes of the Storm")));
    let _ = parts.set_status(OnlineStatus::DoNotDisturb);
    assert_eq!(
        whole.set_presence(
            Some(Game::playing("Heroes of the Storm")),
            OnlineStatus::DoNotDisturb,
            true
        ),
        parts.set_afk(true)
    );
}

#[test]
fn sync_calls_sends_one_message_for_each_channel() {
    assert_eq!(
        shard().sync_calls(&[ChannelId(5), ChannelId(4)]),
        vec![
            GatewayStatus::SendMessage(payload::sync_call(ChannelId(5))),
            GatewayStatus::SendMessage(payload::sync_call(ChannelId(4))),
        ]
    );
    assert_eq!(shard().sync_calls(&[]), vec![]);
}

#[test]
fn sync_guilds_sends_one_message() {
    assert_eq!(
        shard().sync_guilds(&[GuildId(5), GuildId(4)]),
        GatewayStatus::SendMessage(payload::sync_guild(&[GuildId(5), GuildId(4)]))
    );
}

#[test]
fn events_are_handed_on() {
    let handled = shard().handle_event(Ok(GatewayEvent::Dispatch(12, unknown())));
    assert_eq!(handled.voice(), None);
    assert_eq!(
        returned(handled),
        (vec![GatewayStatus::Sequence(12)], Ok(Some(unknown())))
    );
}

#[test]
fn a_resumed_session_has_its_own_interval() {
    let resumed = || Event::Resumed(ResumedEvent { heartbeat_interval: 900 });
    let handled = shard().handle_event(Ok(GatewayEvent::Dispatch(12, resumed())));
    assert_eq!(
        returned(handled),
        (
            vec![GatewayStatus::Sequence(12), GatewayStatus::ChangeInterval(900)],
            Ok(Some(resumed()))
        )
    );
}

#[test]
fn voice_updates_go_to_their_guild() {
    let state = |guild_id| {
        Event::VoiceStateUpdate(VoiceStateUpdateEvent { guild_id, voice_state: Value::U64(8) })
    };
    let server = |guild_id| {
        Event::VoiceServerUpdate(VoiceServerUpdateEvent {
            guild_id,
            endpoint: Some("voice.example".to_owned()),
            token: "a voice token".to_owned(),
        })
    };
    let mut shard = shard();
    let handled = shard.handle_event(Ok(GatewayEvent::Dispatch(1, state(Some(GuildId(3))))));
    assert_eq!(handled.voice(), Some(VoiceUpdate::State(GuildId(3), &Value::U64(8))));
    let handled = shard.handle_event(Ok(GatewayEvent::Dispatch(2, server(Some(GuildId(4))))));
    assert_eq!(
        handled.voice(),
        Some(VoiceUpdate::Server(
            GuildId(4),
            &Some("voice.example".to_owned()),
            &"a voice token".to_owned()
        ))
    );
    assert_eq!(returned(handled).0, vec![GatewayStatus::Sequence(2)]);
    let handled = shard.handle_event(Ok(GatewayEvent::Dispatch(3, state(None))));
    assert_eq!(handled.voice(), None);
    let event = server(None);
    let dispatched = shard.handle_dispatch(&event);
    assert_eq!(dispatched.notice, None);
    assert_eq!(dispatched.voice, None);
}

#[test]
fn heartbeats_are_answered() {
    assert_eq!(
        returned(shard().handle_event(Ok(GatewayEvent::Heartbeat(77)))),
        (vec![GatewayStatus::SendMessage(payload::heartbeat(77))], Ok(None))
    );
    assert_eq!(
        returned(shard().handle_event(Ok(GatewayEvent::HeartbeatAck))),
        (vec![], Ok(None))
    );
}

#[test]
fn a_hello_changes_the_interval() {
    assert_eq!(
        returned(shard().handle_event(Ok(GatewayEvent::Hello(5000)))),
        (vec![GatewayStatus::ChangeInterval(5000)], Ok(None))
    );
}

#[test]
fn an_ended_session_is_not_resumed() {
    let mut shard = shard();
    assert_eq!(
        returned(shard.handle_event(Ok(GatewayEvent::InvalidateSession))),
        (
            vec![GatewayStatus::SendMessage(identify("a token", Some([2, 4]), "linux"))],
            Ok(None)
        )
    );
    let _ = shard.handle_event(Ok(GatewayEvent::Dispatch(9, unknown())));
    let recovery = lose(&mut shard);
    assert_opens(&shard, &recovery);
}

#[test]
fn closes_are_told_apart() {
    let mut shard = shard();
    let closed = |code| Err(Error::Gateway(GatewayError::Closed(code, String::new())));
    let normal = recovery(shard.handle_event(closed(Some(1000))));
    assert_opens(&shard, &normal);
    let other = recovery(shard.handle_event(closed(Some(1001))));
    assert_drops(&shard, &other);
    let none = recovery(shard.handle_event(closed(None)));
    assert_drops(&shard, &none);
    let wanted = recovery(shard.handle_event(Ok(GatewayEvent::Reconnect)));
    assert_opens(&shard, &wanted);
}

#[test]
fn other_errors_are_handed_on() {
    for error in vec![
        || Error::Json("no json".to_owned()),
        || Error::Decode("no event".to_owned()),
        || Error::Io("refused".to_owned()),
        || Error::Other("else".to_owned()),
        || Error::Gateway(GatewayError::InvalidHandshake),
    ] {
        assert_eq!(returned(shard().handle_event(Err(error()))), (vec![], Err(error())));
    }
}

#[test]
fn a_session_is_resumed() {
    let mut shard = shard_at("wss://gateway.example", "a session", 31);
    let _ = shard.handle_event(Ok(GatewayEvent::Dispatch(99, unknown())));
    let recovery = lose(&mut shard);
    assert_drops(&shard, &recovery);
    let recovery = on(&mut shard, recovery, RecoveryOutcome::Done);
    match shard.recovery_action(&recovery) {
        RecoveryAction::Connect(url) => assert_eq!(url, "wss://gateway.example/?v=6"),
        other => panic!("{:?}", other),
    }
    let recovery = on(&mut shard, recovery, RecoveryOutcome::Done);
    match shard.recovery_action(&recovery) {
        RecoveryAction::Send(message) => {
            assert_eq!(message, payload::resume("a session", 31, "a token"))
        }
        other => panic!("{:?}", other),
    }
    let recovery = on(&mut shard, recovery, RecoveryOutcome::Done);
    assert!(matches!(shard.recovery_action(&recovery), RecoveryAction::Receive));
    let outcome = RecoveryOutcome::Received(GatewayEvent::Dispatch(100, unknown()));
    assert_eq!(
        finish(&mut shard, recovery, outcome),
        (Some(GatewayStatus::ChangeSender), Ok(unknown()))
    );
    resumes(&mut shard, "a session", 100);
}

fn resumes(shard: &mut Shard, session_id: &str, sequence: u64) {
    let recovery = lose(shard);
    let recovery = on(shard, recovery, RecoveryOutcome::Done);
    let recovery = on(shard, recovery, RecoveryOutcome::Done);
    match shard.recovery_action(&recovery) {
        RecoveryAction::Send(message) => {
            assert_eq!(message, payload::resume(session_id, sequence, "a token"))
        }
        other => panic!("{:?}", other),
    }
}

fn awaiting(shard: &mut Shard) -> Recovery {
    let mut recovery = lose(shard);
    for _ in 0..3 {
        recovery = on(shard, recovery, RecoveryOutcome::Done);
    }
    recovery
}

#[test]
fn a_resuming_shard_identifies_as_often_as_it_is_told_to() {
    let mut shard = shard();
    let mut recovery = awaiting(&mut shard);
    for _ in 0..5 {
        let invalid = RecoveryOutcome::Received(GatewayEvent::InvalidateSession);
        recovery = on(&mut shard, recovery, invalid);
        match shard.recovery_action(&recovery) {
            RecoveryAction::Send(message) => {
                assert_eq!(message, identify("a token", Some([2, 4]), "linux"))
            }
            other => panic!("{:?}", other),
        }
        recovery = on(&mut shard, recovery, RecoveryOutcome::Done);
        assert!(matches!(shard.recovery_action(&recovery), RecoveryAction::Receive));
    }
    let ready_again =
        RecoveryOutcome::Received(GatewayEvent::Dispatch(2, Event::Ready(ready("another"))));
    assert_eq!(
        finish(&mut shard, recovery, ready_again),
        (Some(GatewayStatus::ChangeSender), Ok(Event::Ready(ready("another"))))
    );
    resumes(&mut shard, "another", 2);
}

#[test]
fn a_failed_resume_is_followed_by_a_reconnect() {
    for steps in 0..4 {
        let mut shard = shard();
        let mut recovery = lose(&mut shard);
        for _ in 0..steps {
            recovery = on(&mut shard, recovery, RecoveryOutcome::Done);
        }
        let recovery = on(&mut shard, recovery, failed("refused"));
        assert_opens(&shard, &recovery);
        resumes(&mut shard, "a session", 1);
    }
}

#[test]
fn an_unexpected_answer_to_a_resume_is_followed_by_a_reconnect() {
    let mut shard = shard();
    let recovery = awaiting(&mut shard);
    let hello = RecoveryOutcome::Received(GatewayEvent::Hello(1));
    let recovery = on(&mut shard, recovery, hello);
    assert_opens(&shard, &recovery);
}

#[test]
fn a_given_up_resume_has_an_error() {
    for steps in 0..4 {
        let mut shard = shard();
        let mut recovery = lose(&mut shard);
        for _ in 0..steps {
            assert_eq!(shard.resume_failure(&recovery, &RecoveryOutcome::Done), None);
            recovery = on(&mut shard, recovery, RecoveryOutcome::Done);
        }
        assert_eq!(
            shard.resume_failure(&recovery, &failed("refused")),
            Some(Error::Io("refused".to_owned()))
        );
    }
    let mut shard = shard();
    let recovery = awaiting(&mut shard);
    for event in vec![
        GatewayEvent::Hello(1),
        GatewayEvent::Heartbeat(1),
        GatewayEvent::HeartbeatAck,
        GatewayEvent::Reconnect,
    ] {
        assert_eq!(
            shard.resume_failure(&recovery, &RecoveryOutcome::Received(event)),
            Some(Error::Gateway(GatewayError::InvalidHandshake))
        );
    }
    for event in vec![GatewayEvent::Dispatch(2, unknown()), GatewayEvent::InvalidateSession] {
        assert_eq!(shard.resume_failure(&recovery, &RecoveryOutcome::Received(event)), None);
    }
}

#[test]
fn only_a_resume_is_given_up_for_want_of_a_url() {
    let no_url = || Some(Error::Gateway(GatewayError::BuildingUrl));
    let mut shard = shard();
    let recovery = lose(&mut shard);
    assert_eq!(recovery.resume_failure(&RecoveryOutcome::Done, no_url()), no_url());
    assert_eq!(recovery.resume_failure(&RecoveryOutcome::Done, None), None);
    let recovery = on(&mut shard, recovery, RecoveryOutcome::Done);
    assert_eq!(recovery.resume_failure(&RecoveryOutcome::Done, no_url()), None);
    let recovery = on(&mut shard, recovery, failed("refused"));
    assert_opens(&shard, &recovery);
    assert_eq!(recovery.resume_failure(&failed("refused"), no_url()), None);
}

#[test]
fn errors_are_cloned_whole() {
    for error in vec![
        Error::Gateway(GatewayError::BuildingUrl),
        Error::Gateway(GatewayError::Closed(Some(4000), "why".to_owned())),
        Error::Gateway(GatewayError::ExpectedHello),
        Error::Gateway(GatewayError::InvalidHandshake),
        Error::WebSocket("a".to_owned()),
        Error::Io("b".to_owned()),
        Error::Json("c".to_owned()),
        Error::Decode("d".to_owned()),
        Error::Other("e".to_owned()),
    ] {
        assert_eq!(error.clone(), error);
    }
}

#[test]
fn an_address_that_is_no_url_is_not_dialed() {
    let shard = shard();
    let recovery = Recovery::dial("a session".to_owned(), Ok("wss://x.example/".to_owned()));
    assert!(matches!(shard.recovery_action(&recovery), RecoveryAction::Connect(_)));
    let refused = Err(Error::Gateway(GatewayError::BuildingUrl));
    let recovery = Recovery::dial("a session".to_owned(), refused);
    assert_opens(&shard, &recovery);
}

#[test]
fn three_attempts_are_followed_by_a_boot() {
    let mut shard = shard();
    let mut recovery = recovery(shard.handle_event(Ok(GatewayEvent::Reconnect)));
    for _ in 0..3 {
        assert_opens(&shard, &recovery);
        recovery = on(&mut shard, recovery, failed("refused"));
        assert!(matches!(shard.recovery_action(&recovery), RecoveryAction::Sleep(1)));
        recovery = on(&mut shard, recovery, RecoveryOutcome::Done);
    }
    match shard.recovery_action(&recovery) {
        RecoveryAction::Boot(token, login_type, shard_info) => {
            assert_eq!(token, "a token");
            assert_eq!(login_type, LoginType::Bot);
            assert_eq!(shard_info, Some([2, 4]));
        }
        other => panic!("{:?}", other),
    }
    assert_eq!(
        finish(&mut shard, recovery, failed("no address")),
        (None, Err(Error::Io("no address".to_owned())))
    );
    resumes(&mut shard, "a session", 1);
}

#[test]
fn a_new_shard_replaces_the_old_one() {
    let mut shard = shard();
    let _ = shard.set_afk(true);
    let recovery = recovery(shard.handle_event(Ok(GatewayEvent::Reconnect)));
    let new = shard_at("wss://other.example", "new session", 3);
    let recovery = on(&mut shard, recovery, RecoveryOutcome::Opened(new, ready("new session")));
    assert!(matches!(shard.recovery_action(&recovery), RecoveryAction::Retire));
    assert_eq!(
        finish(&mut shard, recovery, RecoveryOutcome::Done),
        (None, Ok(Event::Ready(ready("new session"))))
    );
    assert_eq!(
        shard.set_game(Some(Game::playing("go"))),
        presence(Some("go"), OnlineStatus::Online, false)
    );
    resumes(&mut shard, "new session", 3);
}

#[test]
fn a_new_shard_stays_though_the_old_one_cannot_be_closed() {
    let mut shard = shard();
    let recovery = recovery(shard.handle_event(Ok(GatewayEvent::Reconnect)));
    let new = shard_at("wss://other.example", "new session", 3);
    let recovery = on(&mut shard, recovery, RecoveryOutcome::Opened(new, ready("new session")));
    assert_eq!(
        finish(&mut shard, recovery, failed("broken pipe")),
        (None, Err(Error::Io("broken pipe".to_owned())))
    );
    resumes(&mut shard, "new session", 3);
}

#[test]
fn an_attempt_asks_for_the_same_shard() {
    let mut shard = shard();
    let recovery = recovery(shard.handle_event(Ok(GatewayEvent::Reconnect)));
    match shard.recovery_action(&recovery) {
        RecoveryAction::Open(Ok(handshake)) => {
            assert!(matches!(
                handshake.action(),
                serenity_gateway::handshake::HandshakeAction::Connect(url)
                    if url == "wss://gateway.example/?v=6"
            ));
            match handshake.step(HandshakeOutcome::Done) {
                HandshakeStep::Continue(handshake, None) => assert_eq!(
                    handshake.action(),
                    serenity_gateway::handshake::HandshakeAction::Send(identify(
                        "a token",
                        Some([2, 4]),
                        "linux"
                    ))
                ),
                other => panic!("{:?}", other),
            }
        }
        other => panic!("{:?}", other),
    }
}

#[test]
fn recoveries_tell_what_they_accept() {
    let mut shard = shard();
    let opened = || RecoveryOutcome::Opened(crate::shard(), ready("x"));
    let received = || RecoveryOutcome::Received(GatewayEvent::HeartbeatAck);

    let dropping = lose(&mut shard);
    assert!(dropping.accepts(&RecoveryOutcome::Done));
    assert!(dropping.accepts(&failed("x")));
    assert!(!dropping.accepts(&received()));
    assert!(!dropping.accepts(&opened()));

    let awaiting = awaiting(&mut shard);
    assert!(!awaiting.accepts(&RecoveryOutcome::Done));
    assert!(awaiting.accepts(&received()));
    assert!(!awaiting.accepts(&opened()));

    let opening = recovery(shard.handle_event(Ok(GatewayEvent::Reconnect)));
    assert!(!opening.accepts(&RecoveryOutcome::Done));
    assert!(!opening.accepts(&received()));
    assert!(opening.accepts(&opened()));
    assert!(opening.accepts(&failed("x")));

    let pausing = on(&mut shard, opening, failed("x"));
    assert!(pausing.accepts(&RecoveryOutcome::Done));
    assert!(!pausing.accepts(&failed("x")));
    assert!(!pausing.accepts(&opened()));
}

#[test]
fn a_connection_is_closed_in_three_steps() {
    let shutdown = shard().shutdown();
    assert_eq!(
        shutdown.action(),
        ShutdownAction::Send(CloseFrame { status_code: Some(1000), payload: vec![] })
    );
    let shutdown = match shutdown.step(Ok(())) {
        ShutdownStep::Continue(shutdown) => shutdown,
        other => panic!("{:?}", other),
    };
    assert_eq!(shutdown.action(), ShutdownAction::Flush);
    let shutdown = match shutdown.step(Ok(())) {
        ShutdownStep::Continue(shutdown) => shutdown,
        other => panic!("{:?}", other),
    };
    assert_eq!(shutdown.action(), ShutdownAction::Stop);
    assert_eq!(shutdown.step(Ok(())), ShutdownStep::Finish(Ok(())));
}

#[test]
fn the_closing_of_a_connection_ends_with_the_first_error() {
    for steps in 0..3 {
        let mut shutdown = shard().shutdown();
        for _ in 0..steps {
            shutdown = match shutdown.step(Ok(())) {
                ShutdownStep::Continue(shutdown) => shutdown,
                other => panic!("{:?}", other),
            };
        }
        let error = || Err(Error::Io("broken pipe".to_owned()));
        assert_eq!(shutdown.step(error()), ShutdownStep::Finish(error()));
    }
}
