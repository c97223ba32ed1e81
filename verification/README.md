# aleph_node

The rules of a blockchain node and of the tools around it, written in Rust and
proved with Verus: what each function does stands in its contract, and what holds
of several functions together stands beside them as a public proof function.

- `src/` is the library.
  - `rate_limiter`: token buckets, for one consumer or for several that share a
    bandwidth.
  - `clique`: direct connections between nodes: authorization, the protocol of a
    connection, and the whole-number part of buckets with fractional rates.
  - `network`: addresses, authentications within a session, split networks,
    gossip, and the start of the network.
  - `crypto`, `block`: signatures of a committee, and the verification of
    justifications and headers.
  - `client`, `rpc`: calls to the chain, and what comes of a node's messages.
  - `e2e`: the end-to-end scenarios as plans and state machines.
  - `node`, `party`: settings of a node, and its part in sessions.
- `tests/` runs the library.
- `app/` connects it to sockets, channels, clocks and the command line.

Where the library calls another crate, the call stands in a small function whose
contract is taken on trust; its doc comment says what is claimed.
