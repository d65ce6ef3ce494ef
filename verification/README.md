# vyomad

The decision logic of the Vyoma microVM daemon, written in Verus and proved
against its contracts.

- `src/` is the verified library: request handling (`api`), VM bookkeeping
  and recovery (`state`), the VM creation stages (`vm_service`), the
  replicated swarm state and its network plan (`swarm`), snapshots
  (`timemachine`, `auto_snapshot`), hibernation, DNS answers, the web UI's
  routing, authentication, start-up checks and crash injection. Creating a
  VM is a step function (`vm_service::lifecycle::run_vm_step`) that the
  caller drives stage by stage. Calls into outside crates (`chrono`, `uuid`,
  `rand`, `simple-dns`, `mime_guess`, and a few std functions) go through
  small trusted wrappers whose contracts say what those crates document.
- Laws that span several operations are public proof functions, for
  instance `swarm::laws::law_leases_unique` (no two members share a subnet
  lease) and `timemachine::law_delete_latest_keeps_chain`.
- `tests/` exercise the library from outside.
- `app/` is the executable around it: argument handling, the files, the
  `sled` store, processes and network commands that the library plans.

## Maps

The daemon keeps its tables in ordered maps. Here they are two small
verified maps kept as sorted vectors of entries:

- `str_map::StrMap`, for tables keyed by text. vstd specifies `BTreeMap`'s
  `insert`, `get` and `remove` only for keys whose ordering it knows
  (`obeys_cmp`), which it does not state for `String`, so a std map keyed by
  text would carry no usable contract.
- `ordered_map::U64Map`, for the swarm's tables keyed by node id. The swarm's
  node and peer listings are those tables walked in key order. This map gives
  that order as a plain sequence (`key_seq`), with a proved `values()`.
  vstd's `BTreeMap::values` gives it only through a prophetic iterator and
  an existentially chosen key sequence, which the listing proofs cannot use
  as directly.
