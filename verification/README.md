# clusterflux

The decision logic of the Clusterflux command line, node agent and
coordinator, written in Verus: every function in `src/` carries a contract
that Verus proves, and the laws that tie functions together are public proof
functions.

## Layout

- `src/text.rs`, `src/sets.rs`, `src/json.rs`: characters, decimal and hex
  rendering, ordered sets, and the JSON values that the login logic reads.
- `src/errors.rs`: classification of error messages into stable categories,
  exit codes and next actions.
- `src/capability.rs`, `src/node.rs`, `src/windows_dev.rs`: node capability
  reports, their validation, and the plan of `node attach`.
- `src/node_commands.rs`: scope resolution and the checks of the node
  commands that talk to a coordinator, including the `node attach` exchange.
- `src/auth.rs`, `src/browser_login.rs`, `src/account_status.rs`: login plans,
  authorization URLs, stored CLI sessions, the hosted browser login as a step
  function, and what `auth status` reports.
- `src/automation.rs`, `src/admin.rs`: the session a command acts through,
  project secrets, and admission of self-hosted admin requests.
- `src/durable.rs`, `src/durable_map.rs`, `src/ids.rs`, `src/digest.rs`,
  `src/replicate.rs`: the coordinator's durable records and exact copies of
  them, how composite-key maps are persisted and read back, and content
  digests.
- `src/environments.rs`: which task environments are prebuilt.
- `src/weburl.rs`: the parts of a parsed URL, taken from the `url` crate.

`app/main.rs` is the command line around the library: argument parsing,
probing the local machine, and JSON output. `tests/` holds the tests.

The `sha2` dependency computes the SHA-256 digests (`sha256:<hex>`) that the
project's core crate provides; that crate is not part of this library.
