# Verified core of a Hurd/Mach RPC toolkit

`src/` is the verified library (crate name `lib`):

- `mach` – Mach scalar types and constants, the message header, the
  old-format inline type descriptor (`mig_type`, the canonical descriptors,
  `bad_typecheck`, `MigScalar`, `Tagged`), `msgh_bits` encoding, and the
  wire-byte model of headers and descriptors.
- `parse` – a token-tree model and the parser of the `routine!` grammar,
  with its full specification and the law that every valid routine, written
  out as tokens, parses back to itself.
- `emit` – the client-stub generator: the exact source text produced for a
  parsed routine (request marshalling with the COMPLEX bit decided at run
  time, reply validation, out-argument extraction).
- `decimal` – reading and writing `i32` literals, with the round-trip law.
- `rpc` – request/reply headers of simple MIG routines.
- `trivfs` – the `fsys_startup` request, its wire bytes, and the reading of
  its reply.
- `hex` – the hexadecimal text of the servers' stderr diagnostics.
- `shutdown`, `init`, `wait` – the decisions of the shutdown translator and
  of init (options, reaping children), and wait-status decoding.
- `ports` – opaque libports handles.

`app/` holds what cannot be verified: the libc/Mach/libports FFI, the
proc-macro entry points (which convert compiler token streams to the
library's token model), the MIG macros, libtrivfs's C-ABI functions, and
the shutdown and init programs. `tests/` exercises the library.
