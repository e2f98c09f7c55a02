use iroha_data_model::account::AccountId;
use iroha_data_model::account::DomainId;
use iroha_data_model::crypto::PrivateKey;
use iroha_data_model::crypto::PublicKey;
use iroha_data_model::error::FindError;
use iroha_data_model::error::InstructionExecutionFail;
use iroha_data_model::error::TransactionLimitError;
use iroha_data_model::error::TransactionRejectionReason;
use iroha_data_model::error::TriggerExecutionFail;
use iroha_data_model::error::ValidationFail;
use iroha_data_model::error::WasmExecutionFail;
use iroha_data_model::isi::InstructionBox;
use iroha_data_model::name::Name;
use iroha_data_model::transaction::Executable;
use iroha_data_model::transaction::TransactionBuilder;
use iroha_data_model::transaction::TransactionResult;
use iroha_data_model::transaction::WasmSmartContract;
use iroha_data_model::ChainId;
use core::time::Duration;

fn alice_key() -> PrivateKey {
    PrivateKey::from_bytes(vec![7u8; 32]).unwrap()
}

fn alice() -> AccountId {
    AccountId::new(
        DomainId::new(Name::new("wonderland".to_string())),
        alice_key().public_key(),
    )
}

fn builder() -> TransactionBuilder {
    TransactionBuilder::new_with_time(
        ChainId::new("chain-0".to_string()),
        alice(),
        1_700_000_000_000,
    )
}

#[test]
fn wasm_smart_contract_debug_repr_should_contain_just_len() {
    let contract = WasmSmartContract::from_compiled(vec![0, 1, 2, 3, 4]);
    assert_eq!(contract.debug_repr(), "WASM binary(len = 5)");
}

#[test]
fn wasm_smart_contract_size_bytes() {
    let contract = WasmSmartContract::from_compiled(vec![9; 1234]);
    assert_eq!(contract.size_bytes(), 1234);
    assert_eq!(contract.debug_repr(), "WASM binary(len = 1234)");
}

#[test]
fn empty_builder_signs_to_empty_transaction() {
    let tx = builder().sign(&alice_key());
    match tx.instructions() {
        Executable::Instructions(isi) => assert!(isi.is_empty()),
        Executable::Wasm(_) => panic!("expected an instruction list"),
    }
    assert_eq!(tx.nonce(), None);
    assert_eq!(tx.time_to_live(), None);
    assert_eq!(tx.chain().inner, "chain-0");
    assert_eq!(tx.authority(), &alice());
    assert!(tx.metadata().entries.is_empty());
}

#[test]
fn zero_ttl_is_folded_into_absence() {
    let mut b = builder();
    b.set_ttl(Duration::from_millis(0));
    let tx = b.sign(&alice_key());
    assert_eq!(tx.time_to_live(), None);
}

#[test]
fn nonzero_ttl_is_kept() {
    let mut b = builder();
    b.set_ttl(Duration::from_millis(100_500));
    let tx = b.sign(&alice_key());
    assert_eq!(tx.time_to_live(), Some(Duration::from_millis(100_500)));
}

#[test]
fn nonce_and_creation_time_are_kept() {
    let mut b = builder();
    b.set_nonce(42);
    b.set_creation_time(Duration::from_millis(123_456));
    let tx = b.sign(&alice_key());
    assert_eq!(tx.nonce(), Some(42));
    assert_eq!(tx.creation_time(), Duration::from_millis(123_456));
}

#[test]
fn signing_and_hashing_are_deterministic() {
    let instructions = vec![InstructionBox::Mint("10 rose".to_string())];
    let t1 = builder().with_instructions(instructions.clone()).sign(&alice_key());
    let t2 = builder().with_instructions(instructions).sign(&alice_key());
    assert_eq!(t1.signature(), t2.signature());
    assert_eq!(t1.hash(), t2.hash());
    assert_eq!(t1.hash(), t1.hash());
}

#[test]
fn hash_has_digest_length_and_separates_payloads() {
    let t1 = builder().sign(&alice_key());
    let t2 = builder()
        .with_instructions(vec![InstructionBox::Burn("1 rose".to_string())])
        .sign(&alice_key());
    assert_eq!(t1.hash().hash.payload.len(), 32);
    assert_ne!(t1.hash(), t2.hash());
}

#[test]
fn signature_verifies_for_matching_authority() {
    let tx = builder().sign(&alice_key());
    assert!(tx.verify_signature().is_ok());
}

#[test]
fn signature_fails_for_wrong_key() {
    let mallory_key = PrivateKey::from_bytes(vec![9u8; 32]).unwrap();
    let tx = builder().sign(&mallory_key);
    assert!(tx.verify_signature().is_err());
}

#[test]
fn signature_fails_after_payload_mutation() {
    let mut tx = builder().sign(&alice_key());
    assert!(tx.verify_signature().is_ok());
    tx.inject_instructions(vec![InstructionBox::Transfer("all roses".to_string())]);
    assert!(tx.verify_signature().is_err());
}

#[test]
fn inject_instructions_appends() {
    let mut tx = builder()
        .with_instructions(vec![InstructionBox::Mint("10 rose".to_string())])
        .sign(&alice_key());
    tx.inject_instructions(vec![InstructionBox::Burn("2 rose".to_string())]);
    match tx.instructions() {
        Executable::Instructions(isi) => {
            assert_eq!(isi.len(), 2);
            assert_eq!(isi[1], InstructionBox::Burn("2 rose".to_string()));
        }
        Executable::Wasm(_) => panic!("expected an instruction list"),
    }
}

#[test]
fn instruction_kind_names_match_taxonomy() {
    assert_eq!(InstructionBox::Burn(String::new()).kind_name(), "burn");
    assert_eq!(InstructionBox::Unregister(String::new()).kind_name(), "un-register");
    assert_eq!(
        InstructionBox::RemoveKeyValue(String::new()).kind_name(),
        "remove key-value pair"
    );
    assert_eq!(InstructionBox::Custom(String::new()).kind_name(), "custom");
}

#[test]
fn instruction_execution_fail_message_names_the_kind() {
    let fail = InstructionExecutionFail {
        instruction: InstructionBox::Mint("10 rose".to_string()),
        reason: "insufficient funds".to_string(),
    };
    assert_eq!(
        fail.message(),
        "Failed to execute instruction of type mint: insufficient funds"
    );
}

#[test]
fn wasm_execution_fail_message() {
    let fail = WasmExecutionFail { reason: "trap".to_string() };
    assert_eq!(fail.message(), "Failed to execute wasm binary: trap");
}

#[test]
fn empty_success_differs_from_rejection() {
    let ok = TransactionResult(Ok(vec![]));
    let rejected = TransactionResult(Err(TransactionRejectionReason::TriggerExecution(
        TriggerExecutionFail::MaxDepthExceeded,
    )));
    assert_ne!(ok, rejected);
    assert_eq!(ok, TransactionResult(Ok(vec![])));
    assert_ne!(ok.hash(), rejected.hash());
}

#[test]
fn every_rejection_reason_matches_exactly_one_variant() {
    let reasons = vec![
        TransactionRejectionReason::AccountDoesNotExist(FindError::Account(alice())),
        TransactionRejectionReason::LimitCheck(TransactionLimitError {
            reason: "too many instructions".to_string(),
        }),
        TransactionRejectionReason::Validation(ValidationFail {
            reason: "not permitted".to_string(),
        }),
        TransactionRejectionReason::InstructionExecution(Box::new(InstructionExecutionFail {
            instruction: InstructionBox::Burn("1 rose".to_string()),
            reason: "no such asset".to_string(),
        })),
        TransactionRejectionReason::WasmExecution(WasmExecutionFail {
            reason: "trap".to_string(),
        }),
        TransactionRejectionReason::TriggerExecution(TriggerExecutionFail::MaxDepthExceeded),
    ];
    let mut seen = vec![false; 6];
    for reason in &reasons {
        let (tag, ..) = reason.to_parts();
        assert!(!seen[tag as usize]);
        seen[tag as usize] = true;
    }
    assert!(seen.iter().all(|s| *s));
}

#[test]
fn public_key_length_is_checked() {
    assert!(PublicKey::from_bytes(vec![1u8; 31]).is_none());
    assert!(PublicKey::from_bytes(vec![1u8; 32]).is_some());
    assert!(PrivateKey::from_bytes(vec![]).is_none());
}
