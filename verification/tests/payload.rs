use serde_json::Value;
use serenity_gateway::constants::OpCode;
use serenity_gateway::error::{Error, GatewayError};
use serenity_gateway::model::{ChannelId, Game, GuildId, OnlineStatus};
use serenity_gateway::payload;
use serenity_gateway::prep;

fn parse(text: &str) -> Value {
    serde_json::from_str(text).unwrap()
}

#[test]
fn op_codes_have_their_numbers() {
    assert_eq!(OpCode::Heartbeat.num(), 1);
    assert_eq!(OpCode::Identify.num(), 2);
    assert_eq!(OpCode::StatusUpdate.num(), 3);
    assert_eq!(OpCode::Resume.num(), 6);
    assert_eq!(OpCode::SyncGuild.num(), 12);
    assert_eq!(OpCode::SyncCall.num(), 13);
}

#[test]
fn statuses_have_their_words() {
    assert_eq!(OnlineStatus::DoNotDisturb.name(), "dnd");
    assert_eq!(OnlineStatus::Idle.name(), "idle");
    assert_eq!(OnlineStatus::Invisible.name(), "invisible");
    assert_eq!(OnlineStatus::Offline.name(), "offline");
    assert_eq!(OnlineStatus::Online.name(), "online");
}

#[test]
fn heartbeat_tells_the_sequence() {
    assert_eq!(payload::heartbeat(42), parse(r#"{"op": 1, "d": 42}"#));
    assert_eq!(
        payload::heartbeat(u64::MAX),
        parse(r#"{"op": 1, "d": 18446744073709551615}"#)
    );
}

#[test]
fn sync_call_tells_the_channel() {
    assert_eq!(
        payload::sync_call(ChannelId(81384788765712384)),
        parse(r#"{"op": 13, "d": {"channel_id": 81384788765712384}}"#)
    );
}

#[test]
fn sync_guild_tells_the_guilds_in_order() {
    assert_eq!(
        payload::sync_guild(&[GuildId(3), GuildId(1), GuildId(2)]),
        parse(r#"{"op": 12, "d": [3, 1, 2]}"#)
    );
    assert_eq!(payload::sync_guild(&[]), parse(r#"{"op": 12, "d": []}"#));
}

#[test]
fn status_update_tells_the_game() {
    assert_eq!(
        payload::status_update(
            &Some(Game::playing("Heroes of the Storm")),
            OnlineStatus::Online,
            false
        ),
        parse(
            r#"{"op": 3, "d": {"since": 0, "afk": false, "status": "online",
                "game": {"name": "Heroes of the Storm"}}}"#
        )
    );
}

#[test]
fn status_update_tells_that_there_is_no_game() {
    assert_eq!(
        payload::status_update(&None, OnlineStatus::DoNotDisturb, true),
        parse(r#"{"op": 3, "d": {"since": 0, "afk": true, "status": "dnd", "game": null}}"#)
    );
}

#[test]
fn resume_tells_session_sequence_and_token() {
    assert_eq!(
        payload::resume("a session", 7, "a token"),
        parse(r#"{"op": 6, "d": {"session_id": "a session", "seq": 7, "token": "a token"}}"#)
    );
}

#[test]
fn identify_without_shards() {
    assert_eq!(
        prep::identify("a token", None, "linux"),
        parse(
            r#"{"op": 2, "d": {"large_threshold": 250, "token": "a token", "v": 6,
                "properties": {
                    "$browser": "Feature-full and ergonomic discord rust library",
                    "$device": "serenity", "$os": "linux", "$referrer": "",
                    "$referring_domain": ""}}}"#
        )
    );
}

#[test]
fn identify_with_shards() {
    let message = prep::identify("a token", Some([4, 255]), "linux");
    assert_eq!(message.pointer("/d/shard"), Some(&parse("[4, 255]")));
    assert_eq!(message.pointer("/d/token"), Some(&parse("\"a token\"")));
    assert_eq!(message.pointer("/op"), Some(&parse("2")));
}

#[test]
fn thread_names_tell_the_shard() {
    assert_eq!(prep::thread_name(None), "serenity keepalive [unsharded]");
    assert_eq!(prep::thread_name(Some([0, 1])), "serenity keepalive [shard 0/0]");
    assert_eq!(prep::thread_name(Some([3, 11])), "serenity keepalive [shard 3/10]");
    assert_eq!(prep::thread_name(Some([209, 255])), "serenity keepalive [shard 209/254]");
}

#[test]
fn gateway_urls_tell_the_version() {
    assert_eq!(prep::versioned_url("wss://gateway.example"), "wss://gateway.example?v=6");
    assert_eq!(
        prep::build_gateway_url("wss://gateway.example"),
        Ok("wss://gateway.example/?v=6".to_owned())
    );
    assert_eq!(
        prep::build_gateway_url("WSS://Gateway.Example:8080"),
        Ok("wss://gateway.example:8080/?v=6".to_owned())
    );
}

#[test]
fn what_is_no_url_is_refused() {
    let refused = Err(Error::Gateway(GatewayError::BuildingUrl));
    assert_eq!(prep::build_gateway_url("gateway"), refused);
    assert_eq!(prep::build_gateway_url(""), refused);
    assert_eq!(prep::checked_url(None), refused);
    assert_eq!(prep::checked_url(Some("a url".to_owned())), Ok("a url".to_owned()));
}

#[test]
fn addresses_are_safe_up_to_a_length() {
    let wide = |n: usize| "\u{fdfa}".repeat(n);
    assert!(prep::is_safe_address(""));
    assert!(prep::is_safe_address("wss://gateway.example"));
    assert!(prep::is_safe_address(&wide(210)));
    assert!(!prep::is_safe_address(&wide(211)));
    assert!(prep::is_safe_address(&"%41".repeat(641)));
    assert!(!prep::is_safe_address(&"%41".repeat(642)));
    assert!(prep::is_safe_address(&"a".repeat(10_000)));
    assert!(!prep::is_safe_address(&("a".repeat(10_000) + "%")));
    assert!(!prep::is_safe_address(&("a".repeat(10_000) + "\u{e9}")));
}

#[test]
fn safe_addresses_are_parsed() {
    let refused = Err(Error::Gateway(GatewayError::BuildingUrl));
    let far = format!("wss://{}\u{1062cd}", "a".repeat(203));
    assert!(prep::is_safe_address(&far));
    assert_eq!(prep::build_gateway_url(&far), refused);
    let wide = format!("wss://{}", "\u{fdfa}".repeat(204));
    assert!(prep::is_safe_address(&wide));
    assert_eq!(prep::build_gateway_url(&wide), refused);
    let escaped = format!("wss://{}", "%EF%B7%BA".repeat(213));
    assert!(prep::is_safe_address(&escaped));
    assert_eq!(prep::build_gateway_url(&escaped), refused);
    let long = format!("wss://{}.example", "a".repeat(5_000));
    assert!(prep::is_safe_address(&long));
    assert_eq!(prep::build_gateway_url(&long), Ok(format!("{}/?v=6", long)));
    assert_eq!(
        prep::build_gateway_url("wss://b\u{fc}cher.example"),
        Ok("wss://xn--bcher-kva.example/?v=6".to_owned())
    );
}
