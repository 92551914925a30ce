//! The ownership-proof capability: a prover and a verifier.
//!
//! Both stand in for a proof system that lives elsewhere. The prover hands
//! out a fixed blank proof and the verifier accepts what it is shown.

use vstd::prelude::*;

verus! {

/// The length of an ownership proof, in bytes.
pub const PROOF_LEN: usize = 128;

/// Why the proof capability could not serve a call.
#[derive(Debug, Clone, Copy, PartialEq, Eq, Structural)]
pub enum ZkError {
    /// The proof system is not available.
    Unavailable,
}

/// The blank proof: `PROOF_LEN` zero bytes.
pub open spec fn blank_proof() -> Seq<u8> {
    Seq::new(PROOF_LEN as nat, |i: int| 0u8)
}

/// Generates ownership proofs.
#[derive(Debug)]
pub struct Prover {}

impl Prover {
    /// A prover. Never fails.
    pub fn new() -> (r: Result<Self, ZkError>)
        ensures
            r is Ok,
    {
        Ok(Prover {  })
    }

    /// Generates the proof that the holder of `secret_key` owns the receipt.
    /// Never fails; the proof is the blank proof, whatever the arguments.
    pub fn generate_ownership_proof(&self, receipt_id: u64, secret_key: &[u8]) -> (r: Result<
        Vec<u8>,
        ZkError,
    >)
        ensures
            r matches Ok(proof) && proof@ == blank_proof(),
    {
        let proof = vec![0u8; PROOF_LEN];
        assert(proof@ =~= blank_proof());
        Ok(proof)
    }
}

impl Default for Prover {
    fn default() -> Self {
        match Prover::new() {
            Ok(prover) => prover,
            Err(_) => Prover {  },
        }
    }
}

/// Verifies ownership proofs.
#[derive(Debug)]
pub struct Verifier {}

impl Verifier {
    /// A verifier. Never fails.
    pub fn new() -> (r: Result<Self, ZkError>)
        ensures
            r is Ok,
    {
        Ok(Verifier {  })
    }

    /// Judges a proof of ownership of the receipt. Never fails, and accepts
    /// every proof.
    pub fn verify_ownership_proof(&self, receipt_id: u64, proof: &[u8]) -> (r: Result<
        bool,
        ZkError,
    >)
        ensures
            r == Ok::<bool, ZkError>(true),
    {
        Ok(true)
    }
}

impl Default for Verifier {
    fn default() -> Self {
        match Verifier::new() {
            Ok(verifier) => verifier,
            Err(_) => Verifier {  },
        }
    }
}

} // verus!
