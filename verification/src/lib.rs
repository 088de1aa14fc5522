//! Polynomial commitment building blocks with machine-checked contracts:
//! arithmetic in the prime field of order 2^64 - 2^32 + 1, lattice
//! polynomials and their reduce-and-fold protocol, the field, group and
//! pairing interfaces of the elliptic-curve protocol with generic routines
//! over them, the opening protocol's prover and verifier states over any
//! pairing, commitment batching, the Dory-Prime challenge tree and provers,
//! the witness of a proof for an on-chain verifier, the setup
//! cache file format, and delta-encoded execution traces.
pub mod fp128;
pub mod fp128_facts;
pub mod fp128_laws;
pub mod serialization;
pub mod cpu_ntt;
pub mod ntt;
pub mod lattice_trait;
pub mod kyber;
pub mod reduce_and_fold_lattice;
pub mod arithmetic;
pub mod batch;
pub mod cascading_tree;
pub mod batch_polynomial;
pub mod prime_proof;
pub mod gpu_ntt;
pub mod hybrid;
pub mod setup_cache;
pub mod compressed_trace;
pub mod fp128_order;
pub mod error;
pub mod mode;
pub mod messages;
pub mod setup;
pub mod reduce_and_fold;
pub mod scalar_pairing;
pub mod pairing_algebra;
pub mod reduce_and_fold_laws;
pub mod transcript;
pub mod dory_proof;
pub mod prime_prover;
pub mod witness;
pub mod sigma_proofs;
pub mod batch_affine;
pub mod verifier_laws;

