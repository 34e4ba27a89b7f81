# VaultMaid

A desktop client that signs in to Bitwarden or Vaultwarden with a device code
and keeps an encrypted snapshot of the vault behind a local PIN.

The decisions live in a library that Verus verifies; a thin program around it
does the input and output.

| Where | What |
| --- | --- |
| `src/app.rs` | the state machine: messages, state, effects, and its laws |
| `src/message.rs`, `src/state.rs`, `src/effect.rs` | its vocabulary |
| `src/api/` | endpoints, requests, replies, the refresh token in the keyring |
| `src/pin.rs` | the PIN, its verifier and the cache key (Argon2id) |
| `src/cache/` | the encrypted snapshot: AES-256-GCM, rows, load and discard |
| `src/config.rs` | preferences, and what becomes of a damaged file |
| `src/ui/` | what each screen shows and which messages it sends |
| `src/encoding.rs`, `src/text.rs`, `src/model.rs` | shared ground |
| `app/` | window, network, database, keyring, files |
| `tests/` | tests of the compiled library |

Functions state in `ensures` what they return, over the views of the types. The
public `proof fn`s under "Laws" state what holds across functions: that only the
right PIN opens the vault, that a snapshot that was saved is loaded again, that
a logout wipes the session. What other crates compute stands behind items
marked `external_body`; the comment above each says what is taken on trust.
