# serenity_gateway

A shard is one connection of a client to the gateway of a chat service: a
websocket on which the client identifies itself, is told what happens, says how
its user is seen, and which it resumes or makes anew when it is lost.

`src/` holds what a shard knows and decides, written and proved in Verus:

- `handshake`: how a shard comes to be;
- `events`: what it does on the messages and errors of its connection;
- `recovery`: how it resumes its session, or is replaced by a new shard;
- `shard`: how its user is seen, and what it asks to be told of;
- `shutdown`: how its connection is closed;
- `payload`, `prep`, `status`: the messages, URLs and notices that these make;
- `json`: what is taken on trust of `serde_json`;
- `model`, `error`, `constants`: the values that all of them speak of;
- `laws`: what is proved of a shard as a whole.

The library does no input or output. A handshake, a recovery and a shutdown each
say what is to be done next and are told how that went. `app/` does it, on
websockets and threads; a `Host` opens its streams, decodes messages, asks for
the address of the gateway and looks after voice connections.
