# catalog_dump

The zone catalog of an authoritative DNS server, the decisions it takes while answering a
request, and the JSON picture ("dump") of the data a lookup works on, written in Verus.

- `src/name.rs`: lower-cased domain names (parsed by `hickory_proto`), their parent names.
- `src/catalog.rs`: the catalog of zones and the search for the closest enclosing zone,
  with the laws that relate inserting, removing and searching.
- `src/message.rs`: the header and EDNS values the server decides on.
- `src/authority.rs`: what the catalog asks of an authority, and the empty lookup.
- `src/handler.rs`: each decision of request handling as a step from what is known (and
  what the last lookup returned) to what comes next: routing a request, negotiating EDNS,
  updates, queries, authoritative and forwarded answers and their sections, and the
  context dump.
- `src/derive.rs`: what deriving `Walk` produces: the fields walked and the bounds added.
- `src/dump.rs`: the `Walk` and `Dump` traits and the exact text of every dump entry.
- `app/lib.rs`: conversions from and to `hickory_proto`'s message types, the raw memory
  reads the dump needs, saving the dump, and the loops that wait on lookups.
- `tests/`: tests on concrete values.
