# netaminity-agent

A TCP tunnel with two roles. A *proxy* binds consumer ports. A *target* keeps a control session
with the proxy and forwards each consumer connection to its backend. In reliable mode both sides
check the session, and the target replaces a lost one by itself.

- `src/` holds the agent's state machines as verified code: health state and its HTTP answers
  (`health`), the target's supervisor and sessions (`client`), the proxy's listener, connections,
  sessions and port search (`server`), what waits to be accepted (`registry`), and the choice of
  what to start (`command`). They say which messages are sent, how long each wait may last and
  what every outcome means. The few calls into outside crates and the standard library that they
  rest on are in `random` (`uuid`, `fastrand`), `registry` (`dashmap`), `health` (decoding of
  request bytes) and `text` (notation of identifiers and quoted texts).
- `app/` performs the input and output that the state machines ask for and reports back what
  happened. Message framing, authentication, the command line and the schedule of the regular
  checks are there too.
- `tests/` runs the library on concrete values.

Liveness concerns the local process alone: no loss of a session, a peer or a backend changes it.
