# modbus_tcp_client

A Modbus TCP client in two parts.

`src/` holds the decisions, verified with Verus. It does no I/O: it takes note of what happened and
says what to do next.

- `builder`, `ipv4`: collecting and checking a configuration; where the peer is.
- `builder_laws`: what holds of a builder over every sequence of settings.
- `client`, `channels`: the handles that a client keeps, and the channels to its worker.
- `client_laws`: what holds of a client over every sequence of calls.
- `link`: one attempt to connect, the first connection, and connecting again after a loss.
- `link_laws`: what holds of a search for a connection, whatever happens.
- `command`: tries of a command, and the answer to it.
- `worker`: what the task that owns the connection does next.
- `worker_laws`: what holds of a worker over its whole life.
- `transaction`: reading from a Modbus unit and writing to one.
- `error`: what a caller can be told.

`app/` holds the `tokio` side: it performs the actions and reports the events. The Modbus units are
those of `a3ot_modbus_protocol`; their errors reach the caller as they are.

`tests/` exercises the decisions on concrete values.

All that is taken on trust stands in `src/channels.rs`: the opaque channel and task types of
`tokio`, and that opening a channel yields two ends that belong together.
