# louter (verified core)

The routing and bookkeeping core of the Louter LLM gateway, specified and
proved with Verus.

- `src/router/static_router.rs`: model-name patterns (`match_pattern`) and the
  provider registry.
- `src/router/mod.rs`: failover and content routing of a request to an ordered
  list of providers.
- `src/api/chat.rs`: decisions of the chat endpoint: API key from the header,
  the failover step function, token counts, the stream tally, the stream
  forwarding step and the rows it stores.
- `src/api/stamp.rs`: record ids (`getrandom`, `uuid`) and timestamps
  (`std::time`, `chrono`).
- `src/config.rs`: settings and their defaults.
- `app/`: the async and I/O side: configuration files, the locked registry,
  the loops that run the failover and streaming steps.
