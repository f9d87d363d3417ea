# ahash (portable hasher and its null-padding property)

The portable aHash hasher with its proofs, the property check that
all-zero inputs of different lengths hash apart, and the decisions of the
runner that drives that check through several testing tools.

- `src/operations.rs`: folded multiply, rotation, little-endian loads.
- `src/fallback_hash.rs`: the hasher state, `write` and `finish`, and the laws
  that the length mixed into the buffer keeps inputs of different lengths
  apart.
- `src/random_state.rs`: keys from seeds, and the hasher they start.
- `src/etna.rs`: `hash_bytes` and `property_null_padding_distinct`.
- `src/zero_inputs.rs`: the hashes of all-zero inputs up to 255 bytes, and the
  proof that no two of them coincide.
- `src/text.rs`, `src/json.rs`: numerals, JSON string literals and the
  one-line report of a run.
- `src/runner.rs`: tool and property names, merging outcomes, messages.
- `app/main.rs`: the command-line runner (I/O, timing, the testing tools).
- `extras/zero_hashes.py`: regenerates the table in `src/zero_inputs.rs`.
