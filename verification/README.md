# ibcrm

The rules of a small company CRM, verified with Verus: who may read and write
which chat, how absence and profile-edit requests are filed and settled, how
tasks move through projects and regulations, what staff see of sales agents,
how settings are stored and read back, and how encrypted backups are laid out.

Layout:

- `src/` — the verified library. Each module holds one area of the CRM; every
  public function carries a contract over spec functions and views, and
  `src/laws.rs` (with a few laws beside the functions they speak of) states
  the properties that span several calls.
- `tests/` — tests on concrete values, run against the compiled library.
- `app/` — an HTTP server around the library: command routing, the SQLite
  store and the parts that need the network or the disk.

Outside crates called from the library go through small trusted wrappers
(`bcrypt`, `ring`, `chrono`, and a few `std` functions); each wrapper's doc
comment says what its contract claims of the call.
