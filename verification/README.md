# garlemald

Protocol and game-rule logic for a FINAL FANTASY XIV v1.23b server, verified
with Verus.

- `src/` is the verified library: the base-packet and subpacket wire formats,
  the Blowfish session cipher, zlib framing, Lua parameter lists, the lobby's
  request parsing, reply packets and character-change flow, quest journals
  and flags, player and character state, hate tables, battle tables, the
  battle state stack, monster controller decisions and target filters, the
  aetheryte destination table, configuration settings, the typed reading
  and writing of INI values and the packet-log record format. Each public function states its result in `ensures`;
  the laws that relate several functions are public proof functions.
- `app/` holds what touches the outside world: reading configuration and
  server-list files, the command line, the packet log file, the lobby's
  socket loop and database calls, event conditions stored as JSON, and the
  rules computed in floating point (distances, facing and sense ranges for
  the aggro scan among them).
- `tests/` exercises the library on concrete values.

Outside crates are reached from `src/` only through small trusted wrappers:
`flate2` (zlib), `md-5` (session key digest) and `base64` (character
blobs). Padded base64 encoding is stated in full; zlib, MD5 and base64
decoding are named rather than restated.
