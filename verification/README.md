# rust_jira_mcp

A Model Context Protocol (MCP) server for the Jira and Zephyr REST APIs, whose
core is written in Verus and proved against its contracts.

## Layout

- `src/` — the verified library:
  - `config/` — settings, their validation rules and messages, configuration
    sources and hot-reload state, and the table of secrets;
  - `error.rs` — Jira errors, how error responses become errors, retry decisions;
  - `encoding.rs` — Base64 and percent-encoding as used on the wire;
  - `jira/` — request URLs and endpoints, the bulk operation run (batches,
    retries, pauses, stopping at the first failure unless told to continue,
    summary), field copies of an issue clone, request spacing;
  - `performance/` — metrics, memory tracking, profiling and benchmark
    statistics, cache keys and cache bookkeeping, task bookkeeping, alerts;
  - `logging.rs` — logging settings and operation counts;
  - `mcp.rs` — JSON-RPC routing of MCP requests;
  - `tools.rs`, `catalogue.rs` — the tool catalogue: every listed tool with
    its arguments (kind, description, nested fields, allowed values) and its
    required arguments, grouped as the server lists them;
  - `sprints.rs` — the arguments of the sprint tools;
  - `listings.rs`, `replies.rs` — the texts the tools answer with: issue and
    sprint listings, numbered Zephyr lists, and each tool's reply.
- `tests/` — tests of the library on concrete values.
- `app/` — the server program: configuration and secret loading, logging setup,
  HTTP access, the stdio JSON-RPC loop, the tool handlers, the JSON form of the
  catalogue, caches and
  the floating-point reports.

## Configuration

Settings come, highest precedence first, from the environment (`JIRA_*`), a
`.env` file, configuration files (`JIRA_CONFIG_FILE`, `config/local.toml`,
`config/default.toml`) and the defaults. `JIRA_EMAIL` and
`JIRA_PERSONAL_ACCESS_TOKEN` are required. A token longer than 20 characters
without a colon is sent as a bearer token; any other token goes with the e-mail
address in Basic authentication.
