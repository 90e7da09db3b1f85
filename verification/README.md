# wireguard_proxy

A WireGuard-tunnelled HTTP proxy for a scale-to-zero function host or
container. `src/` is the verified library (Verus):

- `keys` — WireGuard keys from base64 text (the `base64` crate decodes).
- `tunnel` — a boringtun tunnel to one peer and the decisions on each of its
  results (send to the peer, write to the stack, report, drain the queue).
- `settings` — numbers read from the environment, listen ports, and the
  settings of the userspace TCP/IP stack.
- `device`, `acceptor`, `exit_node`, `http` — device settings, what is done
  with each accepted stream or connection poll, and the HTTP keep-awake replies.

`app/` holds the programs (`wg`, `tun`, `exit-node`, `azure-function`,
`container`): environment, sockets, async tasks and the HTTP servers.
