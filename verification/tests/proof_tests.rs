use relayer::error::RelayerError;
use relayer::uibc::ZkProofRequirement;
use relayer::zk_proof::{generate_zk_proof, verify_proof_locally, Ics23Prover};

#[test]
fn test_generate_zk_proof() {
    let req = ZkProofRequirement {
        circuit_id: "ics23".to_string(),
        public_inputs: vec![],
        proof_system: "stark".to_string(),
        verification_gas_limit: 5000,
        ..Default::default()
    };
    let (proof, inputs) = generate_zk_proof(&req, vec![]).unwrap();
    assert!(!proof.is_empty());
    assert!(!inputs.is_empty());
}

#[test]
fn generate_zk_proof_gives_the_prover_placeholders() {
    let req = ZkProofRequirement::default();
    let (proof, inputs) = generate_zk_proof(&req, vec![1, 2, 3]).unwrap();
    assert_eq!(proof, b"mock_zk_proof_data".to_vec());
    assert_eq!(inputs, b"mock_public_inputs_data".to_vec());
    let prover = Ics23Prover::new(vec![]);
    assert_eq!(prover.prove(), proof);
    assert_eq!(prover.public_inputs(), inputs);
}

#[test]
fn verify_proof_locally_refuses_empty_parts() {
    let req = ZkProofRequirement::default();
    assert_eq!(verify_proof_locally(&[], &[1], &req), Err(RelayerError::InvalidProofData));
    assert_eq!(verify_proof_locally(&[1], &[], &req), Err(RelayerError::InvalidProofData));
    assert_eq!(verify_proof_locally(&[1], &[2], &req), Ok(true));
}
