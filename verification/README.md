# local_control

The decision logic behind Warp's local control: the protocol's action
catalog and error codes, the permission checks a request passes through, the
handlers for Warp Drive objects, files and projects, the `warpctrl` command
line grammar, and the pieces of app state those handlers rely on (restored
agent conversations and the decisions made when they are stored and read
back from sqlite, editor line numbers, captured frames).

Layout:

- `src/` is the library, written in Verus. Every public function carries a
  contract over spec functions and views, and the laws that tie functions
  together are public proof functions (`lemma_*`) beside them.
  `restored_conversations.rs` reads conversation ids through the `uuid`
  crate behind one trusted wrapper, `parse_uuid`.
- `tests/` runs the library on concrete inputs.
- `app/` holds what stays outside the verifier: the serde copies of the wire
  types and the JSON rendering of handler results.
