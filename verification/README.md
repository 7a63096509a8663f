# saildb

An in-memory key-value database served over channels, with its logic
verified by Verus.

- `src/` is the verified library:
  - `shared_map`: the `dashmap` map that holds the entries, and the
    contracts the library relies on for its `new`, `get`, `insert` and
    `remove`;
  - `action`: the one-byte tags that open each request, and how a tag is
    read back;
  - `inner`: the database (`InnerSailDB`) with the request it serves, the
    typed handle a client talks through, and the client `Sail` that takes
    its handle out for a call and gets it back when the reply has come;
  - `saildb`: the database with a default state (`SailDB`), whose removal
    answers the removed key and value, and a client that always holds its
    handle;
  - `list`: a list served the same way;
  - `laws`: what holds across calls (a read after a write finds the
    written value, what a write or removal answers undoes it, tags read
    back to their operation, and more).
- `app/` is the network side: serving loops over canary channels,
  listeners, and the client calls, which send what the library decides.
- `tests/` runs the library on concrete values.

Keys and values are held as bytes; a client puts its own keys and values
into bytes (bincode) before they travel.
