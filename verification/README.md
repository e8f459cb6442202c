# sip_transport

A SIP endpoint for voice agents, verified with Verus: registration, calls in both directions, hold,
transfer and key presses, and the RTP audio of calls with the G.711 codecs.

The library holds the state and decides; it performs no input or output. Its functions
take what the network, the clock or a device reported and return what is to be sent and told.

| module | what it holds |
| --- | --- |
| `endpoint` | the state of the endpoint, its connection, and the dispatch of incoming requests |
| `registration` | registering, repeating and withdrawing a registration |
| `calling` | placing, receiving, watching and ending calls |
| `control` | key presses, information, transfer and hold |
| `media` | audio in and out of calls, recordings, beep detection, shutdown |
| `call`, `session`, `event`, `error` | the values that these work on |
| `message`, `uri`, `text`, `map` | SIP messages, URIs, texts, and a map keyed by text |
| `transport`, `send_loop`, `recv_loop` | one RTP stream and its two loops |
| `packet`, `codec`, `audio` | packets on the wire, companding, frames |

`app/` runs the library on tokio and rsipstack. What it needs beyond that (queues, resamplers,
recordings, session descriptions, telephone events, tone detection) are the traits in
`app/collaborators.rs`, for the embedding crate to implement.

Parsing of URIs and tags, reading and writing of packets, companding and random numbers come from
`rsip`, `rtp`, `audio-codec-algorithms` and `rand`; what the proofs take for granted of them is
stated at the functions that call them.
