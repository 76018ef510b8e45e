# NexusMCP

The logic of a browser-automation MCP server, written in Verus with its
contracts proved.

- `src/` is the verified library: the tool catalogue and its dispatch, the
  JSON-RPC answers, browser sessions with tabs and history, bot-protection
  detection, stealth scripts, natural-language element targeting, article
  and schema extraction, the page memory, and the decisions of the tools
  (navigation retries, waits, observations, actions).
- `app/` is the program around it: the command line, the stdio and HTTP
  servers, the headless browser, HTTP fetches, SQLite profiles and the
  Prometheus metrics.
- `tests/` runs the library on concrete pages and requests.
