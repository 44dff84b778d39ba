# mcp_rs

The Model Context Protocol in Rust, with its logic verified by Verus.

- `src/` is the library. Everything in it is verified: JSON values and JSON-RPC messages, the
  transports over standard input and output and over HTTP, the protocol that matches responses
  with requests, the client, the server with its tools and settings, and the command lines.
- `tests/` runs the library.
- `app/` is the program around it: sockets, pipes, timers, settings files and argument parsing.

The library does no input or output. It says what is to be sent and what an event calls for; the
program does so and hands back what came of it.

## Running

```
# Server over standard input and output
mcp server

# Server over HTTP on port 3000
mcp server -t sse -p 3000

# Server for one workspace
mcp workspace -w /path/to/workspace

# Client
mcp client list-resources
mcp client read-resource -u "file:///path/to/file"
mcp client call-tool -n "calculator" -a '{"expression": "2 + 2"}'
mcp client -t sse -s http://localhost:3000 list-resources
```

## What is trusted

JSON text is read and written by `serde_json` (`src/json.rs`), which also finds where a value ends
(`src/parts.rs`), and the url of a server is taken apart by `url` (`src/cli.rs`). The contracts of these calls are believed, not proved.
