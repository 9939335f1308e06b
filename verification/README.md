# xmpp_proto

The core of an XMPP client, verified with Verus: JIDs, the stanzas and stream events and
their XML form, the recognition of incoming text, the reading of an XML stream, the packets
of a stream, the code the event derives write, and the connection state machine that
negotiates TLS, authentication and resource binding.

- `src/` is the library. Every function in it carries a contract that Verus proves; the calls
  into `elementtree`, `xml-rs`, `circular`, `regex`, `sasl`, `base64` and `uuid` go through
  small functions whose contracts say what those crates do, and which Verus takes as given.
  - `jid`, `text`: JIDs and the text functions they rest on.
  - `element`, `xml`: an XML element tree, and its text form through `elementtree`.
  - `events`: the events a connection exchanges (IQs, pings, binding, presences, messages,
    stream header, features, TLS and SASL steps).
  - `connection`: the negotiation state machine and its queues, with the laws it keeps.
  - `parser`: recognising a piece of text as an event with regular expressions.
  - `stream`, `xmpp_parser`, `codec`: reading events out of the bytes of a stream, and
    writing events as text.
  - `packet`: the packets of a stream, read from elements and written back.
  - `derive`: the code the `XmppEvent` and `Iq` derives write for an event type.
- `app/` is a client over TCP and TLS, built on tokio and futures, around the library.
- `tests/` exercises the library on concrete values.
