use tgp_escrow::zk::{Prover, Verifier, PROOF_LEN};

#[test]
fn the_prover_hands_out_the_blank_proof() {
    let prover = Prover::new().unwrap();
    let proof = prover.generate_ownership_proof(7, b"secret").unwrap();
    assert_eq!(PROOF_LEN, 128);
    assert_eq!(proof, vec![0u8; 128]);
    let proof = Prover::default().generate_ownership_proof(u64::MAX, b"").unwrap();
    assert_eq!(proof, vec![0u8; 128]);
}

#[test]
fn the_verifier_accepts_what_it_is_shown() {
    let verifier = Verifier::new().unwrap();
    assert_eq!(verifier.verify_ownership_proof(7, &[0u8; 128]), Ok(true));
    assert_eq!(Verifier::default().verify_ownership_proof(0, &[]), Ok(true));
}
