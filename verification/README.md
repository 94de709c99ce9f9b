# kraft

A Raft consensus node with a key-value state machine, written in Verus.
The decisions that a node makes are executable functions whose contracts
Verus proves:

- `raft::rpc::request_vote` and `raft::rpc::append_entries`: when a node
  grants its vote, what it keeps of its log, what it appends, and how far it
  commits, with laws such as "one vote per term", "a follower answers success
  exactly when its entry at the previous index is in the leader's term" and
  "the commit index never goes back";
- `raft::node`: the election roles of a node and the transitions between
  them;
- `state_machine::impls::key_value_store`: the store, its commands, and the
  parser of the text commands that clients type;
- `storage::codec`: the gzip form in which a node's serialized state is
  stored, with the law that what is stored reads back unchanged;
- `election`, `rpc`, `network`, `node_address`, `data`: a second, smaller
  server with its own vote rule, its configuration, and its counter lines.

Calls into `flate2`, `hashbrown`, `serde_json` and `uuid` stand behind small
trusted wrappers whose contracts say what those crates document.

`app/` holds the programs around the library: a cluster server that answers
RPCs over TCP, a command server, a client, a log reader and a counter game
between nodes. It does the I/O, the serialization and the argument handling;
Verus does not see it.

`tests/` holds the tests, run against the compiled library.
