# agentx

Library core of `agentx`, a single-binary remote process / file-system
executor that registers a host as a remote environment with a gateway and
serves it over a WebSocket.

Layout:

- `src/` — the verified library (Verus). Each module states its behaviour in
  `requires` / `ensures` contracts over mathematical models (`Seq`, `Map`,
  views) and proves it:
  - `text`: trimming, case folding, affix tests, replacement, decimal text;
  - `remote_host`: which registration URLs an API key may be sent to;
  - `registry`: environment-registry configuration, requests and error replies;
  - `reconnect`: the gateway reconnect schedule and the retry backoff;
  - `auth`: which logins may register, and the headers that carry them;
  - `arg0`: process-name dispatch, PATH aliases, helper paths, `.env` filtering,
    the clean-up of stale alias directories;
  - `default_client`: originator and user agent;
  - `config`: the exec-server configuration and the agent-identity base-URL
    allow-list;
  - `login`, `network_policy`, `network_proxy`, `state`: small configuration
    and store types.
- `app/` — the `agentx` command: argument parsing, environment, file system,
  HTTP and WebSocket I/O around the library.
- `tests/` — tests of the library.
