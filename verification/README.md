# reverse_proxy

A host-routing reverse proxy with TLS certificate management, built around a library whose
decisions are proved with Verus.

- `src/` — the verified library:
  - `config.rs`: start-up settings from the configuration file and the environment, with a
    decimal port parser that agrees with `str::parse::<u16>`.
  - `proxy_core/handlers/filesystem.rs`: `safe_path`, the normalising join that keeps every
    certificate file inside its directory.
  - `proxy_core/handlers/proxy.rs`: the routing table and the per-request decisions
    (pass, 301 to HTTPS, 400, 421, upstream choice).
  - `proxy_core/handlers/certs.rs`: certificate paths, self-signed certificate plans, the files
    loaded into the certificate store.
  - `proxy_core/handlers/renewal.rs`: the ACME renewal protocol as a state machine, with its
    two-stage laws.
  - `proxy_core/models/host_map.rs`: the host-keyed map behind the routing table, the
    certificate store and the pending orders. It is a list of entries whose hosts are
    pairwise distinct (its type invariant), viewed as a `Map` from host text to
    value. It stands where a `HashMap<String, _>` would otherwise be: vstd's specification of
    `HashMap` says what a lookup or an insertion does only for key types that it knows to
    hash deterministically and to compare by value (the primitive integers, `bool`, and
    boxes of them). `String` is not among them, and adding it would take an unproved
    assumption, so over a `String`-keyed `HashMap` not even the length after one insertion
    can be proved. Over the list, lookup, insertion and removal are proved exactly against
    the `Map` view.
  - `services/dns/cloudflare.rs`: Cloudflare request building and response reading.
- `tests/` — executable tests of the library.
- `app/` — the binary: environment, files, the Pingora server, ACME and HTTP calls.
