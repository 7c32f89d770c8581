# codex_logic

The decision logic of a coding agent's runtime, written in Verus: the public
functions in `src/` carry `requires`/`ensures` contracts that Verus proves
(a few private helpers have none), and the properties that span several
functions stand as public proof functions named `law_*`.

What it covers:

- shadow replacements for shell command output (`classify`, `digest`,
  `replacement`, `path_sample`): which commands have a compact digest, the
  digests themselves, and the token-savings rule;
- the repository context scout (`scout`, `scout_index`, `scout_packet`,
  `scout_run`): ranking files for a prompt and the capped packet of hints;
- automatic self-review (`self_review`, `review_anchor`) and task memory
  (`task_memory`);
- protocol items and events (`models`, `response_items`, `mcp`,
  `protocol_events`, `protocol_types`, `config_types`);
- session lifecycles, sources and settings (`session`, `session_source`,
  `session_state`, `session_policy`, `runtime_ports`);
- the deterministic side of the logic-engine comparison (`reasoning`),
  memory records (`memories`) and test-binary dispatch (`test_binary`).

Outside crates are reached through a few trusted wrappers, each documented
where it stands: `shlex::split` (`shell_words`), `serde_json` field reads and
string quoting (`json_fields`, `models`) and `sha1` (`task_memory`). Where a
crate of the original is not available (the output-truncation utilities),
the library takes its results as arguments and `app/` applies them.

`app/` is ordinary Rust around the library: running `git` and other
processes, the file system, JSON records with serde derives, and the
asynchronous session ports. `tests/` exercises the library from outside.
