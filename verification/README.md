# bahyway

The BahyWay v4 library, written in Verus: the functions in `src/` are
verified against `requires`/`ensures` contracts, except where nothing can be
promised of a result (a fresh random nonce, the clock, a unit hasher value),
and the properties the library promises as a whole stand as `law_*` proof
functions beside the code they speak of. The calls into outside crates go
through small trusted wrappers whose contracts state what those crates
document.

## Layout

- `src/heptascript/` — the HeptaScript query language: the lexer (`token`),
  a grammar stated as spec functions (`grammar`) with the parser proved equal
  to it (`parser`), laws of the grammar (`grammar_laws`), the query plan and
  the evaluation decisions (`engine`, `indexed`), the sovereign verbs and the
  SQL firewall (`operations`, `orbit_objects`), tribe routing and the
  request framing (`sumuukin`), and the integer parts of the modular index.
- `src/kupru/` — the cryptographic layer: SHA3 and HMAC digests, the Ed25519
  seal, the ChaCha20-Poly1305 cipher, Argon2id key derivation, `.akk`
  documents, Akkadian roots and names, passports, and the Shamir split of the
  architect key. The outside crates are reached through small trusted
  wrappers in `kupru/primitives.rs`, each with the contract its crate
  documents.
- `src/kupru_vault.rs`, `src/istar/` — vaults, namespace authorization and
  the query firewall.
- `src/kupru_bridge.rs` — the stateless operations a scripting host calls:
  key derivation with a fresh or stored salt, vault-blob sealing, and the
  layers of a locally issued passport.
- `src/ishum/` — the occupancy grid, its clearance transform, connectivity
  by union-find, and the disconnect-width searches.
- `src/homt/`, `src/kinetic.rs`, `src/idu.rs`, `src/iris.rs`,
  `src/kidinnu.rs`, `src/kittu.rs` — the integer and symbolic parts of the
  engines: render modes, sector and axis indexing, link composition, the
  camera's frame counter, the door ledger and card seals, alert texts.
- `src/text.rs` — character and string helpers shared by the modules.
- `app/` — what the library leaves to its caller: network and file I/O,
  JSON, the Godot class over `kupru_bridge`, and the floating-point
  physics of the engines.
- `tests/` — tests of the library on concrete values.
