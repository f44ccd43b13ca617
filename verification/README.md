# mc-components

Verified building blocks of a MobileCoin node and its tools, written in Verus.

- `src/event.rs`: the events of the authenticated key exchange state machine
  (handshake blobs and channel payloads) and what reading them gives back.
- `src/multisig.rs`: m-of-n threshold multi-signatures over nested signer
  sets: which signers a multi-signature is matched with, and when a signer
  set accepts it.
- `src/keyfile.rs`: the JSON form of a root identity and its conversions.
- `src/gnosis.rs`, `src/mint_tx.rs`, `src/audited_mint.rs`, `src/error.rs`:
  the mint auditor's records, the queries for MintTxs not yet matched with a
  deposit, and the matching of a Gnosis safe deposit with a MintTx, over the
  rows of the auditor's tables.
- `src/hex_text.rs`: lower-case hex text of byte strings.

`app/` holds what the library leaves out: the SQLite tables (through
diesel), the serde forms of the records, and the pieces that live on types of
the key, attestation, noise, transaction and serialization crates.
