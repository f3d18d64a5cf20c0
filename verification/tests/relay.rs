use vectorx_operator::errors::RelayError;
use vectorx_operator::relay::{
    begin_custodial_relay, interpret_confirmation, interpret_receipt, plan_relay, relay_payload,
    self_signed_params, ProofArtifact, RelayPlan, TxReceipt,
};
use vectorx_operator::vkey::check_vkey;

fn artifact() -> ProofArtifact {
    ProofArtifact {
        proof_bytes: vec![1, 2, 3],
        public_values: vec![9, 8, 7],
    }
}

#[test]
fn mock_mode_sends_empty_proof_and_full_public_values() {
    let (proof, public_values) = relay_payload(artifact(), true);
    assert!(proof.is_empty());
    assert_eq!(public_values, vec![9, 8, 7]);
}

#[test]
fn real_mode_sends_both_payloads_unchanged() {
    let (proof, public_values) = relay_payload(artifact(), false);
    assert_eq!(proof, vec![1, 2, 3]);
    assert_eq!(public_values, vec![9, 8, 7]);
}

#[test]
fn reverted_receipt_is_a_failure_despite_the_hash() {
    let receipt = TxReceipt {
        status: false,
        transaction_hash: vec![0xaa; 32],
    };
    assert!(matches!(interpret_receipt(receipt), Err(RelayError::Reverted)));
}

#[test]
fn successful_receipt_yields_its_hash() {
    let receipt = TxReceipt {
        status: true,
        transaction_hash: vec![0xbb; 32],
    };
    assert_eq!(interpret_receipt(receipt), Ok(vec![0xbb; 32]));
}

#[test]
fn missing_receipt_is_a_timeout() {
    assert!(matches!(interpret_confirmation(None), Err(RelayError::ConfirmationTimeout)));
    let receipt = TxReceipt {
        status: true,
        transaction_hash: vec![0xcc; 32],
    };
    assert_eq!(interpret_confirmation(Some(receipt)), Ok(vec![0xcc; 32]));
    let reverted = TxReceipt {
        status: false,
        transaction_hash: vec![0xdd; 32],
    };
    assert!(matches!(interpret_confirmation(Some(reverted)), Err(RelayError::Reverted)));
}

#[test]
fn custodial_plan_carries_the_request() {
    let plan = plan_relay(true, 11155111, String::from("0xContract"), String::from("0xdeadbeef"));
    match plan {
        RelayPlan::Custodial(q) => {
            assert_eq!(q.chain_id, 11155111);
            assert_eq!(q.address, "0xContract");
            assert_eq!(q.calldata, "0xdeadbeef");
            assert!(!q.platform_request);
        }
        _ => panic!("expected the custodial path"),
    }
}

#[test]
fn self_signed_plan_waits_three_confirmations_for_a_minute() {
    let plan = plan_relay(false, 1, String::from("a"), String::from("b"));
    match plan {
        RelayPlan::SelfSigned { num_confirmations, timeout_seconds } => {
            assert_eq!(num_confirmations, 3);
            assert_eq!(timeout_seconds, 60);
        }
        _ => panic!("expected the self-signed path"),
    }
}

#[test]
fn custodial_relay_gives_up_after_three_attempts() {
    let first = begin_custodial_relay();
    assert_eq!(first.attempts_remaining, 3);
    let second = first.on_attempt_failure().expect("one retry left");
    assert_eq!(second.attempts_remaining, 2);
    let third = second.on_attempt_failure().expect("one retry left");
    assert_eq!(third.attempts_remaining, 1);
    assert!(matches!(third.on_attempt_failure(), Err(RelayError::ServiceFailed)));
}

#[test]
fn self_signed_params_fix_confirmation_policy() {
    let p = self_signed_params(300_000, 40_000_000_000, 17);
    assert_eq!(p.gas_limit, 300_000);
    assert_eq!(p.max_fee_per_gas, 40_000_000_000);
    assert_eq!(p.nonce, 17);
    assert_eq!(p.num_confirmations, 3);
    assert_eq!(p.timeout_seconds, 60);
}

#[test]
fn matching_vkey_passes_the_guard() {
    let contract_vkey = vec![0x12, 0x34, 0xab];
    let prover_hex = b"0x1234ab".to_vec();
    assert!(check_vkey(&contract_vkey, &prover_hex).is_ok());
}

#[test]
fn uppercase_hex_decodes_the_same() {
    let contract_vkey = vec![0x12, 0x34, 0xab];
    let prover_hex = b"0x1234AB".to_vec();
    assert!(check_vkey(&contract_vkey, &prover_hex).is_ok());
}

#[test]
fn mismatched_vkey_fails_the_guard() {
    let contract_vkey = vec![0x12, 0x34, 0xac];
    let prover_hex = b"0x1234ab".to_vec();
    assert!(check_vkey(&contract_vkey, &prover_hex).is_err());
}
