# icepick

The decisions of a small web crawler, verified with Verus, and the
asynchronous program around them.

- `src/` is the verified library:
  - `net/rate_limiter.rs`: the time-slot rate limiter and its laws (every
    two requests that pass are at least one interval apart; sleeping the
    time a refused step names is enough).
  - `net/limiter_table.rs`: one limiter per domain, kept in a `DashMap`
    under the XXH3 hash of the domain.
  - `net_client/`, `net/reqest_sender.rs`, `net/req_sender.rs`: the HTTP
    clients' decisions: which limiter a request waits on, when a fetch is
    retried, how a request is routed after DNS resolution, which links a
    page holds.
  - `process_manager/`: the work queue of the process manager and the
    instructions it runs.
  - `database/`, `crawler/`: the records of crawls and pages, and how a
    fetched page becomes a record.
  - `utils/`: zstd compression of page text (decompression gives the text
    back), errors, URL parsing.
- `app/` runs all of it on tokio: HTTP with reqwest, DNS, SQLite, clocks
  and background tasks.
- `tests/` exercises the library on concrete values.
