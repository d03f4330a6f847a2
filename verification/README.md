# rpc_bridge

The web bridge of a desktop application: it exposes the application's commands, events and
settings stores over plain HTTP, proxies requests to other servers, takes browser uploads and
serves static files. How it reads requests, what it does about them and what it replies is a
library that is verified with Verus. The server around it is ordinary Rust: it registers the routes,
decodes the arguments of commands and hands them to the application.

| Endpoint | Library module |
| --- | --- |
| `POST /rpc/{command}` | `rpc`, with `command` and `args` |
| `GET /events?name=` | `events` |
| `GET`, `POST /store/{name}` | `store` |
| `GET /asset?path=`, `GET /*` | `assets` |
| `* /proxy` | `proxy` |
| `POST /upload` | `upload` |

Shared by these: `reply` (replies as plain values), `json` (what a `serde_json` value holds),
`headers` (what a header map holds), `path` (components of slash-separated paths), `percent`
(percent-decoding), `text` (characters and numbers) and `server` (the address to bind to).

Functions whose names begin with `law_` state what holds of the library as a whole, for instance
that an upload never leaves the directory of its session, that a later upload replaces an earlier
one, that the session cookie is never sent to a proxy target, and that a read of a store shows what
was written.

What `axum`, `reqwest`, `serde_json` and the standard library do is believed, not proved. Each such
item says in its doc comment what is believed of which function.

`app/` is the server: routing, sockets, files and streams. It reaches the application through the
trait `Host`, which the desktop application implements with its application handle: its commands,
its event system and its stores.

The bridge performs no authentication and accepts absolute paths. It binds to the loopback address
unless told otherwise and belongs behind an authenticating reverse proxy.

| Variable | Default | Meaning |
| --- | --- | --- |
| `LLM_WIKI_WEB_PORT` | `19829` | port |
| `LLM_WIKI_WEB_BIND` | `127.0.0.1` | address |
| `LLM_WIKI_WEB_DIST` | none | directory of the static files |
| `LLM_WIKI_WEB_UPLOAD_DIR` | below `HOME` | directory of the staged uploads |
| `LLM_WIKI_PROXY_EXTRA_CA` | none | PEM file with further roots for the proxy |
