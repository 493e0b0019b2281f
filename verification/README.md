# tenant

A service that administers tenants, the organizations and agencies they belong
to, and the plans that bound them. It serves HTTP, keeps its documents in
MongoDB, caches tenant listings in Redis and announces changes on NATS.

## Layout

- `src/` is the library, verified with Verus: the data model and its views,
  the entities and the rules of each change, the menus of a tenant and what the
  public site shows of them, and the decisions of every operation. An
  operation that needs to look something up is a function from what it knows
  so far to its next step: look up this, refuse with that error, or go ahead.
- `app/` is the program around it: the HTTP endpoints, the MongoDB, Redis and
  NATS clients, the serde forms of the library's types, and the loops that run
  the library's decisions against the store.
- `tests/` exercises the library.
