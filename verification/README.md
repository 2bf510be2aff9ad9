# hope_scheme

A verified library for the hOPE scheme: homomorphic encryption with order
codes, over a pairing-friendly curve (`rabe-bn`) and the Paillier
cryptosystem.

A system (`hope`) keeps two group elements `p` and `q`, a code tree whose
leaves hold the stored Paillier ciphertexts in insertion order, and a lookup table that
files the `bincode` encoding of each ciphertext's group token under the
ciphertext's MongoDB object id. Ciphertexts (`hopeCiphertext`) compare by
their order codes, the insertion positions of their leaves in the code tree;
nothing in the library compares plaintexts.

Layout:

- `src/schemes/she/hope/mod.rs`: the system, its keys and ciphertexts, and
  the contracts of encryption, addition and subtraction.
- `src/schemes/she/hope/apl.rs`: the lookup table.
- `src/schemes/she/hope/bplus.rs`: the code tree.
- `src/schemes/she/hope/order.rs`: how ciphertexts compare.
- `src/schemes/she/hope/group.rs`: the pairing groups (`G1Element`,
  `G2Element`: group elements made by the library only) and the token
  encoding.
- `src/schemes/she/hope/digits.rs`: decimal text of plaintexts.
- `src/schemes/she/hope/object_id.rs`, `paillier_values.rs`: object ids and
  Paillier values as the library carries them.
- `app/`: the web server and the Paillier operations, whose results the
  library is handed as the bytes of their serialized form.
