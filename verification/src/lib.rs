//! The hOPE scheme: a server-side system of order-preserving codes over
//! additively homomorphic ciphertexts, with a lookup table that maps
//! pairing-group tokens to the identifiers of stored ciphertexts.

pub mod schemes;
