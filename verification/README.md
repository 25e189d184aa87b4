# mandag

The core of a small web framework, with its rules stated as contracts and
proved.

- `src/` is the verified library: request methods and route methods
  (`method`), routes and mounting (`routes`), the router's choice of handler
  for a request (`dispatch`), the steps of a handler from extraction to
  response (`handler`), the outcomes of extractors and the plugin slot
  (`outcome`, `extract`), body decoding decisions (`body`), rows of fallible
  steps that stop at the first failure (`sequence`), the application's
  set-up phases and the running of extension hooks (`phase`), the routes
  builder and the building of the router's table (`builder`), the template
  glob (`tera`), and the planning done by the route attribute macros
  (`codegen`).
- `app/` is the unverified rim around it: request and response types, serde
  decoding, template rendering, the extension hooks, the plugin store and the
  token generation of the macros. It drives the state machines of `src/` and
  hands them plain values.
- `tests/` runs the library on concrete values.
