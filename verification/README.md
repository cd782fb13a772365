# simple_network_monitor

A small network monitor: it pings hosts over ICMP, collects logged-in user
counts over SSH, keeps per-host status and usage history, and serves it all
through a JSON HTTP API with optional bearer-token authentication.

## Layout

- `src/` is the verified library, written in Verus. It holds the
  configuration model and its validation, the ICMP up/down status machine,
  the usage cache and history rules, host and usage filters, the ping and SSH
  command builders, query-string handling, request authorization, the API
  response shapes and the monitor manager's decisions. Every public function
  carries a contract, and the laws that span several functions are stated as
  public proof functions next to the code they describe.
- `app/` is the program around it: command-line handling, reading the TOML
  file, SQLite storage, the HTTP server, sockets and processes, timers and
  the async runtime. It hands plain values to the library and acts on what
  comes back.
- `tests/` exercises the library on concrete values.
