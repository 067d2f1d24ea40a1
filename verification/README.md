# rsvr

Client-side building blocks for a set of package and file services, written
in Verus.

`src/` is the verified library:

- `queue` — a queue that pops newest-first until switched to arrival order;
  its laws (stack order, arrival order, draining) are proved there.
- `text` — text search, splitting and decimal formatting used by the rest.
- `net`, `resp` — the URL and HTTP-client items of the `url` and `reqwest`
  crates, the request model, the response envelope and its checks.
- `artifactory`, `dpm`, `gate`, `picboo`, `release`, `nexus_api` — the
  service clients: each call's method, URL, headers and argument checks.
- `settings`, `remote` — storage settings, file schemas, the transfer queues
  and the routing, progress reports and messages of a sync run, with the
  run's record of one outcome per file.
- `lz4` — the settings of directory compression.
- `timefmt`, `shell` — formatting a UTC time with chrono, and what a
  finished shell command reports.

`app/` holds what performs I/O around the library: sending the requests,
(de)serialising payloads, the S3/HTTP/Nexus transfers with their progress
display, directory archiving, and shell commands.
