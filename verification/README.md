# dory_pcs

Building blocks of the Dory polynomial commitment scheme and of its
lattice-based variant, written in Verus with machine-checked contracts.

## Layout

- `src/fp128.rs`, `src/fp128_laws.rs`, `src/fp128_order.rs`,
  `src/fp128_facts.rs`: the prime field of order `2^64 - 2^32 + 1`, its
  algebraic laws, and the proof that 7 generates its multiplicative group
  (hence Fermat's little theorem and correct inverses).
- `src/cpu_ntt.rs`, `src/ntt.rs`, `src/gpu_ntt.rs`: twiddle tables and
  transform configuration.
- `src/lattice_trait.rs`, `src/kyber.rs`, `src/reduce_and_fold_lattice.rs`:
  lattice polynomials, their commitments and inner products, and the
  reduce-and-fold protocol over them.
- `src/arithmetic.rs`, `src/batch.rs`: field, group and pairing interfaces,
  generic vector routines, and commitment batching.
- `src/reduce_and_fold.rs`, `src/messages.rs`, `src/setup.rs`,
  `src/mode.rs`, `src/error.rs`: the opening protocol over a pairing —
  prover state (binary and four-way rounds, and a forkable variant that owns
  its setup), verifier state and the final check — generic over the curve,
  with the messages, the public parameters and the blinding mode it uses.
- `src/pairing_algebra.rs`, `src/reduce_and_fold_laws.rs`: the module,
  field and bilinearity laws, rules for finite sums, and the proofs that an
  honest round keeps the verifier's accumulators equal to the inner products
  of the prover's folded vectors and that the honest final message passes
  the final check.
- `src/batch_affine.rs`: projective to affine conversion of a batch of
  points with one field inversion and 3(N-1) multiplications (Montgomery's
  trick), with the proof that each result is `(x·z⁻², y·z⁻³)`.
- `src/scalar_pairing.rs`: the prime field as a small pairing instance
  (multiplication is bilinear), on which the generic protocol is tested.
- `src/cascading_tree.rs`, `src/batch_polynomial.rs`, `src/prime_proof.rs`:
  the Dory-Prime challenge tree, batch polynomial and proof size.
- `src/transcript.rs`, `src/dory_proof.rs`, `src/prime_prover.rs`: the
  Fiat-Shamir transcript interface, modelled as the log of labelled values
  it has absorbed and challenges drawn from that log; the opening proof;
  and the Dory-Prime provers (forked and sequential rounds, cascading and
  lookahead entry points), with the proof that each appends its messages
  in protocol order under their labels, draws every challenge from the log
  that precedes it, and sends the protocol's messages for those
  challenges.
- `src/witness.rs`: the witness of a proof for an on-chain verifier circuit
  (challenges, split point, accumulators and final G2 points).
- `src/sigma_proofs.rs`: the sigma protocols of the zero-knowledge opening
  (the scalar-product proof sits with the prover state, the `ZK` blinding
  mode with the modes).
- `src/setup_cache.rs`: the setup cache file format (header, hashing,
  compression, file names).
- `src/compressed_trace.rs`: delta- and run-length-encoded execution traces.
- `app/`: file-system access for the cache, serialisable copies of the trace
  types, and the GPU transform entry points.
- `tests/`: executable tests.

Run `verus` on `src/lib.rs` to check every contract.
