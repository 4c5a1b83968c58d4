# hive-mcp-gateway

An MCP (Model Context Protocol) gateway to the Honeycomb control plane, with its
logic verified in Verus.

| Tool | What it does |
|---|---|
| `describe_cluster` | Lists the capabilities that are on offer. |
| `run_subagent` | Hands a task to Honeycomb and waits until it has ended. |
| `estimate_cost` | Estimates the credits for a call from the capability's URN and the token count. |

A thousand tokens cost 5 credits on a tiny model (135M to 360M), 20 on a small
one (0.5B to 3B) and 40 to 100 on a large one (7B to 14B). Callers of the stdio server cannot
set the tenant or the sensitivity tier; callers of the library can.

## Layout

- `src/` is the library. It decides: which request to send, how long to wait,
  what to answer. Each module opens with what it is about; `law_*` proof
  functions state what holds of the library as a whole.
- `app/` is the stdio server around it. It acts: it reads lines, sends requests,
  sleeps, and encodes and decodes the tools' arguments and responses.
- `tests/` runs the library, with the outside crates linked.

What the library takes on trust stands in `src/json.rs` (`serde_json`),
`src/ids.rs` (`uuid`), `src/clock.rs` (`chrono`) and at the top of `src/text.rs`
(`std`). Each of these items says above it what is claimed of the outside
function.

## Running the server

```bash
HONEYCOMB_URL=http://localhost:8080 HONEYCOMB_API_KEY=dev-hive-key mcp_stdio
```
