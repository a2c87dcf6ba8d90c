//! What a connection needs before it can be opened.

use serde_json::builder::{ArrayBuilder, ObjectBuilder};
use serde_json::Value;
use vstd::prelude::*;
use vstd::utf8::is_ascii_chars;
use websocket::url::{ParseError, Url};

use crate::constants::{OpCode, GATEWAY_VERSION, LARGE_THRESHOLD};
use crate::error::{Error, GatewayError};
use crate::json::{
    elements, insert_array, insert_object, insert_str, insert_u64, json_of, members, push_u64, Json,
};
use crate::payload::message_json;

verus! {

/// The decimal digit for `n`.
pub open spec fn digit(n: nat) -> char
    recommends
        n < 10,
{
    (48 + n) as char
}

/// `n` in decimal, without leading zeros.
pub open spec fn decimal(n: nat) -> Seq<char>
    decreases n,
{
    if n < 10 {
        seq![digit(n)]
    } else {
        decimal(n / 10).push(digit(n % 10))
    }
}

/// The decimal digit for `n`, as a text of its own.
fn digit_text(n: u8) -> (text: &'static str)
    requires
        n < 10,
    ensures
        text@ == seq![digit(n as nat)],
{
    proof {
        reveal_strlit("0");
        reveal_strlit("1");
        reveal_strlit("2");
        reveal_strlit("3");
        reveal_strlit("4");
        reveal_strlit("5");
        reveal_strlit("6");
        reveal_strlit("7");
        reveal_strlit("8");
        reveal_strlit("9");
    }
    match n {
        0 => "0",
        1 => "1",
        2 => "2",
        3 => "3",
        4 => "4",
        5 => "5",
        6 => "6",
        7 => "7",
        8 => "8",
        _ => "9",
    }
}

/// Appends `n` in decimal to `text`.
fn append_decimal(text: &mut String, n: u8)
    ensures
        final(text)@ == old(text)@ + decimal(n as nat),
    decreases n,
{
    if n >= 10 {
        append_decimal(text, n / 10);
    }
    text.append(digit_text(n % 10));
    assert(text@ =~= old(text)@ + decimal(n as nat));
}

/// The name of the thread that sends the heartbeats of a shard: the shard's
/// number and the number of the last shard, if it is one of several.
pub open spec fn keepalive_name(shard_info: Option<[u8; 2]>) -> Seq<char> {
    match shard_info {
        Some(info) => "serenity keepalive [shard "@ + decimal(info@[0] as nat) + "/"@ + decimal(
            (info@[1] - 1) as nat,
        ) + "]"@,
        None => "serenity keepalive [unsharded]"@,
    }
}

/// The shard is not one of none.
pub open spec fn has_shards(shard_info: Option<[u8; 2]>) -> bool {
    shard_info matches Some(info) ==> info@[1] > 0
}

/// Names the thread that sends the heartbeats of a shard.
pub fn thread_name(shard_info: Option<[u8; 2]>) -> (name: String)
    requires
        has_shards(shard_info),
    ensures
        name@ == keepalive_name(shard_info),
{
    match shard_info {
        Some(info) => {
            let mut name = "serenity keepalive [shard ".to_owned();
            append_decimal(&mut name, info[0]);
            name.append("/");
            append_decimal(&mut name, info[1] - 1);
            name.append("]");
            name
        },
        None => "serenity keepalive [unsharded]".to_owned(),
    }
}

/// The error type of the URLs of `websocket`, opaque here.
#[verifier::external_type_specification]
#[verifier::external_body]
pub struct ExParseError(websocket::url::ParseError);

/// The URL that `text` stands for, written out in full, or `None` where `text`
/// stands for no absolute URL.
pub uninterp spec fn parsed_url(text: Seq<char>) -> Option<Seq<char>>;

/// How long a text may be to be parsed, whatever it holds.
pub const TEXT_LIMIT: usize = 214;

/// How long a text of ASCII characters may be to be parsed.
pub const ASCII_LIMIT: usize = 1_927;

/// How long a text of ASCII characters without escapes may be to be parsed.
pub const PLAIN_LIMIT: usize = 0x7fff_ffff;

/// `text` can be parsed as a URL without an overflow on the way.
///
/// A name in a URL may grow when it is turned into ASCII, and its parts are then
/// measured in 32 bits. A part of no more than 3,855 characters cannot overflow
/// them. A character becomes 18 at most; one that is written with escapes, of
/// three ASCII characters for each of its bytes, becomes six for each byte at
/// most, which is two for each ASCII character. A part without anything but
/// ASCII and without escapes does not grow, and cannot overflow them unless it
/// does not fit in 31 bits.
pub open spec fn safe_to_parse(text: Seq<char>) -> bool {
    ||| text.len() <= TEXT_LIMIT
    ||| is_ascii_chars(text) && text.len() <= ASCII_LIMIT
    ||| is_ascii_chars(text) && text.len() <= PLAIN_LIMIT && !text.contains('%')
}

/// Whether `text` is without escapes.
fn is_plain(text: &str) -> (plain: bool)
    requires
        is_ascii_chars(text@),
    ensures
        plain == !text@.contains('%'),
{
    let length = text.unicode_len();
    let mut next: usize = 0;
    while next < length
        invariant
            length == text@.len(),
            next <= length,
            is_ascii_chars(text@),
            forall|i: int| 0 <= i < next ==> text@[i] != '%',
        decreases length - next,
    {
        if text.get_ascii(next) == 37 {
            assert(text@[next as int] == '%');
            return false;
        }
        next = next + 1;
    }
    true
}

/// Whether `text` can be parsed as a URL without an overflow on the way.
fn is_safe_to_parse(text: &str) -> (safe: bool)
    ensures
        safe == safe_to_parse(text@),
{
    let length = text.unicode_len();
    if length <= TEXT_LIMIT {
        true
    } else if !text.is_ascii() {
        false
    } else if length <= ASCII_LIMIT {
        true
    } else {
        length <= PLAIN_LIMIT && is_plain(text)
    }
}

/// `Url::parse`: the URL that `text` stands for, written out in full by
/// `Url::into_string`, and an error where it stands for none. Which texts stand
/// for a URL, and for which one, is left unsaid. Texts are left out on which a
/// counter of `idna::punycode::encode`, or one of `Parser::parse_userinfo`, can
/// overflow: both panic where overflows are checked.
#[verifier::external_body]
fn parse_url(text: &str) -> (r: Result<String, ParseError>)
    requires
        safe_to_parse(text@),
    ensures
        match r {
            Ok(url) => parsed_url(text@) == Some(url@),
            Err(_) => parsed_url(text@) is None,
        },
{
    match Url::parse(text) {
        Ok(url) => Ok(url.into_string()),
        Err(error) => Err(error),
    }
}

/// The address of the gateway at `base`, with the version of the protocol.
pub open spec fn versioned(base: Seq<char>) -> Seq<char> {
    base + "?v="@ + decimal(GATEWAY_VERSION as nat)
}

/// The URL of the gateway at `base`, or `None` where there is none.
pub open spec fn gateway_url(base: Seq<char>) -> Option<Seq<char>> {
    parsed_url(versioned(base))
}

/// The address of the gateway can be made a URL, or found to be none.
pub open spec fn safe_address(base: Seq<char>) -> bool {
    safe_to_parse(versioned(base))
}

/// The URL that was made of an address, or the error that it is none.
pub fn checked_url(url: Option<String>) -> (r: Result<String, Error>)
    ensures
        match url {
            Some(url) => r == Ok::<String, Error>(url),
            None => r == Err::<String, Error>(Error::Gateway(GatewayError::BuildingUrl)),
        },
{
    match url {
        Some(url) => Ok(url),
        None => Err(Error::Gateway(GatewayError::BuildingUrl)),
    }
}

/// Adds the version of the protocol to the address of the gateway.
pub fn versioned_url(base: &str) -> (text: String)
    ensures
        text@ == versioned(base@),
{
    let mut text = base.to_owned();
    text.append("?v=");
    append_decimal(&mut text, GATEWAY_VERSION);
    text
}

/// Whether the address of the gateway can be made a URL, or found to be none.
pub fn is_safe_address(base: &str) -> (safe: bool)
    ensures
        safe == safe_address(base@),
{
    is_safe_to_parse(versioned_url(base).as_str())
}

/// Makes the URL of the gateway at `base`.
pub fn build_gateway_url(base: &str) -> (r: Result<String, Error>)
    requires
        safe_address(base@),
    ensures
        match gateway_url(base@) {
            Some(url) => r matches Ok(text) && text@ == url,
            None => r == Err::<String, Error>(Error::Gateway(GatewayError::BuildingUrl)),
        },
{
    match parse_url(versioned_url(base).as_str()) {
        Ok(url) => checked_url(Some(url)),
        Err(_) => checked_url(None),
    }
}

/// What is told of the program that connects, on a machine that runs `os`.
pub open spec fn properties_json(os: Seq<char>) -> Json {
    Json::Object(
        map![
            "$browser"@ => Json::Text("Feature-full and ergonomic discord rust library"@),
            "$device"@ => Json::Text("serenity"@),
            "$os"@ => Json::Text(os),
            "$referrer"@ => Json::Text(""@),
            "$referring_domain"@ => Json::Text(""@),
        ],
    )
}

/// What is told of the one who connects, but for the place among several shards.
pub open spec fn identity_members(token: Seq<char>, os: Seq<char>) -> Map<Seq<char>, Json> {
    map![
        "large_threshold"@ => Json::Integer(LARGE_THRESHOLD as int),
        "properties"@ => properties_json(os),
        "token"@ => Json::Text(token),
        "v"@ => Json::Integer(GATEWAY_VERSION as int),
    ]
}

/// The message that opens a session for `token`.
pub open spec fn identify_json(
    token: Seq<char>,
    shard_info: Option<[u8; 2]>,
    os: Seq<char>,
) -> Json {
    message_json(
        OpCode::Identify,
        Json::Object(
            match shard_info {
                Some(info) => identity_members(token, os).insert(
                    "shard"@,
                    Json::Array(
                        seq![Json::Integer(info@[0] as int), Json::Integer(info@[1] as int)],
                    ),
                ),
                None => identity_members(token, os),
            },
        ),
    )
}

/// Adds what is told of the program that connects to `object`.
fn insert_properties(object: ObjectBuilder, os: &str) -> (filled: ObjectBuilder)
    ensures
        members(filled) == members(object).insert("properties"@, properties_json(os@)),
{
    let fill = |o: ObjectBuilder| -> (filled: ObjectBuilder)
        ensures
            members(filled) == members(o).insert(
                "$browser"@,
                Json::Text("Feature-full and ergonomic discord rust library"@),
            ).insert("$device"@, Json::Text("serenity"@)).insert("$os"@, Json::Text(os@)).insert(
                "$referrer"@,
                Json::Text(""@),
            ).insert("$referring_domain"@, Json::Text(""@)),
        {
            let o = insert_str(o, "$browser", "Feature-full and ergonomic discord rust library");
            let o = insert_str(insert_str(o, "$device", "serenity"), "$os", os);
            insert_str(insert_str(o, "$referrer", ""), "$referring_domain", "")
        };
    insert_object(object, "properties", fill)
}

/// Adds the shard's place among several to `object`, if it is one of several.
fn insert_shard(object: ObjectBuilder, shard_info: Option<[u8; 2]>) -> (filled: ObjectBuilder)
    ensures
        match shard_info {
            Some(info) => members(filled) == members(object).insert(
                "shard"@,
                Json::Array(seq![Json::Integer(info@[0] as int), Json::Integer(info@[1] as int)]),
            ),
            None => filled == object,
        },
{
    match shard_info {
        Some(info) => {
            let fill = |a: ArrayBuilder| -> (filled: ArrayBuilder)
                ensures
                    elements(filled) == elements(a).push(Json::Integer(info@[0] as int)).push(
                        Json::Integer(info@[1] as int),
                    ),
                { push_u64(push_u64(a, info[0] as u64), info[1] as u64) };
            let filled = insert_array(object, "shard", fill);
            assert(Seq::<Json>::empty().push(Json::Integer(info@[0] as int)).push(
                Json::Integer(info@[1] as int),
            ) =~= seq![Json::Integer(info@[0] as int), Json::Integer(info@[1] as int)]);
            filled
        },
        None => object,
    }
}

/// Builds the message that opens a session for `token`, on a machine that runs
/// `os`.
pub fn identify(token: &str, shard_info: Option<[u8; 2]>, os: &str) -> (message: Value)
    ensures
        json_of(message) == identify_json(token@, shard_info, os@),
{
    let object = insert_u64(ObjectBuilder::new(), "op", OpCode::Identify.num());
    let d = |d: ObjectBuilder| -> (filled: ObjectBuilder)
        ensures
            members(d) == Map::<Seq<char>, Json>::empty() ==> message_json(
                OpCode::Identify,
                Json::Object(members(filled)),
            ) == identify_json(token@, shard_info, os@),
        {
            let d = insert_u64(d, "large_threshold", LARGE_THRESHOLD);
            let d = insert_str(insert_properties(d, os), "token", token);
            insert_shard(insert_u64(d, "v", GATEWAY_VERSION as u64), shard_info)
        };
    insert_object(object, "d", d).build()
}

} // verus!
