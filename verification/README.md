# apialerts

A client for the API Alerts notification service, verified with Verus.

- `src/` is the verified library: events and their builders (`event`), the
  client's settings, the request it prepares for an event, how a reply is read
  and what a fire-and-forget send logs (`client`), the default configuration
  (`config`), the process-wide client slot (`lib.rs`), and the minimal
  command-line sender (`cli`).
- `app/` is the network side: it sends the prepared requests with `reqwest`
  (library) or `ureq` (command line), turns events into JSON and reply bodies
  into values with `serde`, and holds the process-wide slot in a `static`.
- `tests/` runs the library on concrete values.
