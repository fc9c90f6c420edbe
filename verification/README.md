# viska

A SIP server core in Rust, verified with Verus. SIP messages are parsed and
built with [`rsip`](https://docs.rs/rsip); every decision the server takes on
them is stated in `requires`/`ensures` contracts and proved.

## Layout

- `src/` — the verified library (crate `viska`):
  - `sip.rs` — the SIP notions the layers reason about (methods, status
    classes) and what they read out of `rsip` messages.
  - `transaction/` — the client and server transaction state machines
    (RFC 3261 section 17, with RFC 6026's `Accepted` state), the table that
    routes messages and timer ticks to them, and their laws (`laws.rs`).
  - `transport/` — the defaults the transport layer applies to Via headers,
    where responses go back to, and how messages are routed to the
    transaction layer or the transaction user.
  - `tu/` — the transaction user: client dialogs (`dialogs/`, with their
    laws), the registrar, the OPTIONS responder, the user agent that routes
    between them, and a proxy processor.
  - `presets.rs` — the responses the server builds from a request.
  - `store/` — the values the server keeps in its database: registrations,
    transaction states and dialog rows, and the text they are stored as.
- `app/` — the program around the library: the UDP socket, DNS lookups, the
  PostgreSQL store and the tasks that run each layer. It performs the actions
  the library's steps ask for.
- `tests/` — tests of the library on real SIP messages.

Time is a plain `u64` of milliseconds passed in by the caller, so every step
of a state machine is a function of its inputs.
