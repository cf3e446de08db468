# contower

The verified core of the ConTower Ethereum networking client.

- `src/` is the library, checked by Verus: gossip and network configuration
  (`p2p_config`, `discovery`), log-level selection (`logging`), console log
  lines (`log_entry`), the local ENR (`local_enr`, with the text search in
  `text`), the selection of the fastest peers (`nodes`), the static-peer
  requests and replies (`peers`), the block arrival report (`blocks`), the
  version text (`version`) and the execution payload
  type (`execution_payload`).
- `app/` is the program around it: command line, terminal logger, the HTTP
  call to the beacon node, the IPC socket of the execution node and the
  discv5 service.
- `tests/` runs the library on concrete values.
