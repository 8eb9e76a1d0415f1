# typelock

Type-level security boundaries for data models, verified with Verus.

A schema struct marks its sensitive fields with a policy (`encrypt`, `secret`,
`digest`, `sign`, `mac`, `index`). The `LockSchema` derive turns it into a
locked model, whose secured fields hold only provider output, and an unlocked
model, whose encrypted fields are decrypted and signed or MAC-tagged fields
verified again, together with the `lock` and
`unlock` conversions between them. Cryptography is left to a provider that the
user implements.

Layout:

- `src/types.rs` – the typed wrappers (`Encrypted<T>`, `Secret<T>`, ...).
- `src/traits.rs` – provider traits, `ToBytes`/`FromBytes`, `Lockable`/`Unlockable`
  and their implementations for strings, bytes and lists of models.
- `src/fields.rs` – the per-field transformations that generated conversions
  call, with the round-trip laws.
- `src/model.rs` – whole-model conversions as sequences of per-field steps,
  with the model-level round-trip laws.
- `src/schema.rs`, `src/codec.rs`, `src/text.rs` – the derives: from a plain
  description of the input, the exact source text that they generate.
- `src/error.rs` – the error type and its messages.
- `app/` – the token-level side of the derives (syn, darling, quote) and the
  diesel column types.
