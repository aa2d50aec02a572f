# chat_server

The request-handling logic of a small chat server (registration, login,
messages between accounts), verified with Verus.

- `src/` is the library. `text` splits headers and credentials (white-space
  words, separator pieces), `codec` and `password` wrap base64, UTF-8 and
  bcrypt, `object_id` reads and writes document identifiers through the store
  library's `ObjectId`,
  `model` holds the stored records, `database` builds the records the server
  stores and lists and decides each lookup of the two store joins, and `routes` decides every answer: credentials from an
  `Authorization` header, the registration and login steps, message checks,
  and the bodies of the error catchers.
- The trusted items (functions marked `external_body` and the names of
  their results) stand in `codec`, `password`, `object_id` and
  `database` (the clock).
- `app/` is the Rocket server over MongoDB: it performs the store requests the
  library asks for and hands back their outcomes.
- `tests/` runs the library on concrete values.
