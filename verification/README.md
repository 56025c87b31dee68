# echo_server

An HTTP echo server whose logic is verified with Verus.

- `src/` is the verified library: routing (`server`), the `/echo` body built
  from the request's path, headers and body (`echo`), the counters kept by the
  connection and request handlers with their Prometheus text (`metrics`), the
  periodic reporter that turns counter snapshots into per-window figures
  (`reporter`), the greeting service (`greeter`), settings and the listening
  address (`config`), and decimal rendering (`text`).
- `app/main.rs` is the program around it: command line, logging, the tokio
  runtime, hyper connections, and the printing of the reports.
- `tests/` exercises the library on concrete values.
