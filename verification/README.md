# rings_core

The ICE transport of a node in a peer-to-peer ring, and what the node does with the messages that
travel over it.

What the transport and the node decide, they decide by verified functions under `src/`. They do no
input or output. An operation that waits for the network is a value: it says what has to be done next, and
it is carried on with what came of it.

| module | what it holds |
| --- | --- |
| `transport` | the state of a transport, its requests and its callbacks |
| `startup` | creating the peer connection and the data channel |
| `negotiation` | making an offer or an answer |
| `handshake` | the message that a transport sends to its peer |
| `registration` | taking in the peer's message |
| `promise` | promises that a callback keeps or breaks |
| `granting` | granting a connection that another node asks for |
| `handler`, `message` | the messages of the ring and what a node does with them |
| `ice_transport` | what a node asks of a transport, as traits |
| `types`, `error` | plain values and errors |
| `rtc` | the calls into `webrtc`, `serde_json` and `uuid`, with what is relied on |

`app/` runs all this on the `webrtc` stack. It leaves to the rest of the node what it takes as
traits: signing, compressing and encoding handshake messages, the routing table with the order of
the ring, the list of transports and the bounded wait for one of them. `tests/connection.rs` connects two transports over a
virtual network.
