# bearings

Remote objects over a byte stream. Each message — a call, a returned value or
an error — is a JSON text followed by one NUL byte.

- `src/` is the verified core, written in Verus: the table of issued calls and
  their replies (`awaiters`), the served objects (`objects`), the framing
  (`frame`), the uuid under which an object type is served (`identity`), the
  messages (`message`) and the error type (`error`).
- `app/` is the asynchronous service on top of it (tokio): it reads and writes
  frames, encodes messages as JSON, runs called objects on their own tasks
  and signals the futures that wait on replies. Served objects implement
  `app::Object` (their uuid comes from `app::uuid_of`), client objects
  implement `app::ObjectClient` and issue their calls through
  `app::remote_call`.
- `tests/` exercises the core on concrete values.
