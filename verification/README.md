# noise-tunnel-rs

An end-to-end encrypted session tunnel in the Noise NK pattern: the client
knows the server's static X25519 key, both sides exchange ephemeral keys in
one round trip, HKDF-SHA256 splits the Diffie-Hellman secrets into two
transport keys, and ChaCha20-Poly1305 with a monotonic nonce protects every
frame. A 128-bit sliding window refuses replayed sequence numbers.

The library under `src/` is verified with Verus:

- `protocol/` — message types, the length-prefixed wire frame (encoding,
  decoding, round-trip and canonicity laws), the replay filter (a sequence
  number is accepted exactly when it was not seen, and stays seen) and the
  handshake transcript hash.
- `crypto/` — key pairs, key derivation and the nonce-counting cipher state;
  `crypto/primitives.rs` holds the trusted calls into x25519-dalek,
  chacha20poly1305, hkdf, sha2 and rand.
- `handshake.rs` — client and server handshake and transport as state
  machines over frames. `law_init_authenticates` and
  `law_handshake_sessions_match` cover the handshakes that
  `ClientHandshake::start` and `ServerHandshake::accept` make with fresh
  random keys: the server accepts the client's message, the client accepts
  the response, and both sessions hold the same transport keys.
  `law_handshake_agreement` states the same for keys the caller supplies.
- `encoding.rs`, `text.rs`, `bytes.rs` — hexadecimal, UTF-8 and decimal text,
  big- and little-endian integers.
- `stats.rs`, `server.rs`, `verify.rs`, `error.rs` — session counters,
  connection admission (with the law that open connections stay within the
  limit), self-checks and the error type.

Key material is not wiped from memory when it is dropped: the `zeroize`
derives cannot be used on the verified types, and Verus has no `Drop` of
its own for them, so the dependency is listed but unused.

`app/` is the command-line program (tokio, clap): it runs the TCP server and
client around the library's state machines.
