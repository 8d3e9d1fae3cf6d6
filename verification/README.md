# mcp_core

The verified core of MCP Dockmaster, a manager of Model Context Protocol
(MCP) servers: it registers servers, starts them as child processes, lists
and calls their tools, stores them in SQLite, and answers JSON-RPC requests.

- `src/` is the library, written for Verus: every function carries a
  contract that Verus proves. Registration, listing, execution routing,
  configuration updates, storage rows, export and import, JSON-RPC routing,
  the frame codec and the proxy's reading of answers all live here. The
  multi-step operations on servers (registering, enabling and disabling,
  reconfiguring, uninstalling) are step functions in `core_steps`: given
  what the last outside action gave, they update the core's tables and say
  what to do next.
- `tests/` runs the library on concrete inputs.
- `app/` is the ordinary Rust around it: files, processes, the database,
  HTTP, and the traits of outside crates; it performs the actions that the
  step functions ask for and hands back their outcomes.
