# cluster_node

The verified core of a small cluster of virtual actors.

`src/` is checked by Verus:

- `node_item`, `cluster_nodes_config`: the cluster members, kept in an
  eventually consistent concurrent map (`evmap`) with one writer and read
  handles for other threads.
- `node_config`, `app_config`: the configuration of one node, made from the
  cluster file and the command line.
- `nodes_registry`, `actor_registry`: where actors are placed and how a
  request for an actor is served (local, remote, activation, refusal).
- `virtual_registry`, `housekeeping`, `virtual_actor`, `persistence`,
  `counter`: virtual actors, their registry, idle-actor parking, persistent
  state and the example counting actors.
- `node_storage`: the big-endian encoding of the node state records.
- `transport`: endpoints, health-check address and answers.
- `table`, `text`: a text-keyed map and decimal rendering.

`app/` holds what does I/O: the command line, the cluster file, the on-disk
store, file persistence, the HTTP client and the JSON state encoding.
