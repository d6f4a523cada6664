# tl_proxy

The verified core of a two-part proxy. The client accepts SOCKS5
connections from local applications (CONNECT and UDP ASSOCIATE) and carries
their traffic through a tunnel to the server, which talks to the remote
hosts.

- `src/` is checked by Verus: the SOCKS5 handshake as a state machine, the
  SOCKS5 UDP datagram format, the frame that UDP payloads travel in through
  the tunnel, the text of target addresses, and the decisions of the relay
  loops. `src/udp_relay.rs` and the proof functions beside each format state
  how the pieces fit: what one side writes, the other reads back.
- `app/` holds the sockets and tasks (tokio) that drive this logic.
