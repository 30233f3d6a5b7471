# reth_middleware

Conversions between the trace types of the `ethers` client library and those
of the `reth` node, for a middleware that answers `ethers` trace requests from
a `reth` node.

- `src/` is the verified library. Both schemas are modelled by plain data
  types (one module per topic: actions, outputs, action traces, machine
  traces, state differences, transaction traces, geth debug tracing, the
  middleware error). Every conversion is a method `into_reth` / `into_ethers`
  of the traits in `src/convert.rs`, whose contract gives the exact view of
  the result and the inputs on which the conversion is defined. The round
  trips between the schemas are proved as laws beside each conversion.
- Leaf values (addresses, hashes, 256-bit words, byte strings) are the same
  in both schemas' models, so a conversion keeps them unchanged. JSON payloads
  (tracer configurations, overrides, tracer frames, JavaScript tracer results)
  are carried as JSON text.
- State changes are ordered maps in both client libraries; the library holds
  them as vectors of entries whose keys ascend, and the conversions are
  defined on such vectors and keep them so.
- `app/` holds the adapters between the values of `ethers` and the library's
  model, and the middleware error with the `thiserror` and `ethers` traits.
  `serde` and `serde_json` are there only to turn the JSON payloads of
  `ethers` values into JSON text and back.
- The middleware itself (`RethMiddleware`, its constructor, its `reth_api`
  getter and its `Debug` impl) is not here: it holds handles of the reth
  node (API, filter and trace handles over the node database), and the reth
  crates are not published on the registry, so neither the library nor
  `app/` can name them.
