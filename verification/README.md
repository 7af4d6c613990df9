# starlark_kit

Two verified tools around a Starlark implementation.

* The renderer (`typ`, `template`, `binding`, `signature`, `documentation`, `fun`) turns
  the description of a native function into the Rust code that defines and registers it.
  A piece of code is a template with holes. What a stream of tokens holds is modelled in
  `tokens` as a flat sequence of tokens with their spans.
* The session (`message`, `json`, `server`, `lifecycle`, `context`) is the client side of
  a language server session, used to test a server. It makes the messages to be sent and
  takes in those that were received; it does no I/O.

`render_laws`, `mention_laws` and `session_laws` state and prove what holds of every
rendering and of every session. `app/` drives a session over an in-memory connection.
