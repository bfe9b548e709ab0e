# qfei_doctor

Network diagnosis for after-sales support: given a URL or a domain, check DNS, TCP, TLS,
HTTP and the local system (proxy, hosts file, clock), and produce a structured report with
a summary and recommended actions.

- `src/` is the verified library (Verus). `diagnostics::Diagnosis` is the diagnosis as a
  state machine: `next_step` names the outside work the next phase needs (or fills in the
  phases that need none), `record` takes its result, and `finish` builds the report. The
  per-layer modules turn what a probe observed into the phase result; `actions` holds the
  rule set for recommended actions; `calendar` and `text` hold the arithmetic and text
  handling they rest on.
- `app/` performs the outside work (resolver, sockets, rustls, reqwest, environment,
  hosts file, registry) and holds serde copies of the report types.
- `tests/` exercises the library on concrete values.
