# mcp_web_search

A web search library for an MCP server, with its contracts proved by Verus, and the
server around it.

- `src/` is the verified library: how each engine's search request is built (Google,
  DuckDuckGo, Bing, Brave, YouTube, Yahoo, SearXNG and TOML plugin engines), how a
  reply's status and page are turned into results (CSS selectors, link clean-up,
  Bing and Yahoo redirect decoding), the engine registry and aggregator, the merge
  and de-duplication of multi-engine results, the exports, the search counters, the
  proxy choices and the HTTP transport's sessions.
- `app/` is the server: command line, network I/O with `reqwest`, the response
  cache, the MCP tools (`rmcp`), the HTTP API (`axum`), the TOML and JSON formats,
  and the few figures that are floats.
- `tests/` runs the library on concrete inputs.

Verify with Verus on `src/lib.rs`; the outside crates (`scraper`, `url`,
`urlencoding`, `base64`, `rand`, `reqwest`'s status codes, `uuid`) are reached only
through small trusted wrappers whose contracts are stated next to them.
