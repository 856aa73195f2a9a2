# scim_server

A SCIM 2.0 server library whose logic is verified with Verus: resource
providers with optimistic versioning and tenant isolation, PATCH
operations, the operation handler that turns requests into responses,
multi-tenant configuration stores (in memory and database-backed),
tenant resolution, and the schema and capability descriptions a server
publishes.

## Layout

- `src/` — the verified library. Every public function states what it
  returns or changes in `requires`/`ensures` over mathematical models
  (`Seq`, `Map`, JSON trees), and the laws that relate several functions
  (a read gives back what a write stored, a stale version is refused and
  changes nothing, one tenant's writes leave the others untouched, a
  cached configuration is served only while fresh, ...) are public proof
  functions.
  - `json`, `json_text`, `text`, `collections` — JSON documents, their
    text, string helpers and a string-keyed map.
  - `storage`, `providers` — tenant-scoped resource storage and the
    standard provider: create, read, update, delete, list, search,
    PATCH, conditional operations, statistics.
  - `operation_handler` — requests, responses, error texts and the
    handler with its laws.
  - `multi_tenant` — tenant configurations, their in-memory store, the
    statements and decisions of the database-backed store, resolvers,
    the database resource provider.
  - `resource` — resources, request and tenant contexts, list queries.
  - `schema`, `provider_capabilities` — schema definitions and the
    service provider configuration derived from a provider's abilities.
  - `ids` — the only calls to the clock, to RFC 3339 formatting and to
    the UUID generator.
- `app/` — plain Rust around the library: serde forms of the
  configuration types, the asynchronous database connection and the
  database-backed configuration store that drives the library's
  statements, configuration files, and floating-point cache statistics.
- `tests/` — tests of the library's behaviour on concrete values.
