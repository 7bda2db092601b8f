# armature_session

Session storage for the Armature framework, verified with Verus.

- `src/` is the verified library: the session configuration and its
  builders, the session record (`Session`, `SessionData`), instants and
  TTLs as integers (`Timestamp`, `Ttl`), and the decisions of the Redis,
  Memcached and CouchDB stores: keys, expiries, the cursored `SCAN` sweep,
  CouchDB document IDs, URLs, how CouchDB's answers are read, and the
  steps of its reads, writes and deletions (`couchdb_flow`).
- `app/` performs the network I/O around those decisions (async stores over
  `redis`, `memcache` and `reqwest`), the `SessionStore` trait, and the JSON
  form of sessions.
- `tests/` exercises the library on concrete values.
