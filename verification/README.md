# hyper-mcp-proxy

A proxy between MCP clients that speak streamable HTTP and MCP servers that speak over
stdio. For every session it spawns a child process of its own, performs the MCP handshake
with it, and passes requests, answers and notifications on between the two sides. The
command is spawned once per session: a second `initialize` is refused before anything is
spawned, and only a spawn that failed is tried again.

```
hyper-mcp-proxy [OPTIONS] -- <COMMAND>...
```

| Flag | Short | Default | Meaning |
|------|-------|---------|---------|
| `--host` | `-H` | `127.0.0.1` | Address to bind |
| `--port` | `-p` | `8080` | Port to bind |
| `--endpoint` | `-e` | `/mcp` | Path that the MCP service is mounted on |
| `--session-keep-alive` | | 5 minutes | Idle timeout of a session in seconds; `0` for none |

Everything behind `--` is the command of the stdio server. `RUST_LOG` sets what is logged;
`RUST_LOG=info,child_stderr=off`, for example, leaves out what the children write to
stderr.

The proxy does no authentication and accepts any `Host` header: access control is left to
the network. Methods that are not part of MCP are answered with "method not found".

## Layout

- `src/` decides; all of it is verified with Verus. What it takes from clap, http and rmcp
  stands in functions marked `external_body`, each with the claim that it makes.
  - `cli`, `line`, `clap_args`, `decimal`: the command line
  - `keep_alive`, `serve`, `shutdown`: sessions, listener and end of the program
  - `session`, `once`, `error`: the session id, cells that are written once, errors
  - `proxy`, `child`: what becomes of each message of the client and of the child
  - `stderr`: what becomes of each line that a child writes to stderr
- `app/` acts: processes, sockets, signals and the log.
- `tests/` runs the library with the crates that it is used with.
