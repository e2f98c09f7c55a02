use iroha_data_model::account::AccountId;
use iroha_data_model::account::DomainId;
use iroha_data_model::crypto::PrivateKey;
use iroha_data_model::error::FindError;
use iroha_data_model::error::InstructionExecutionFail;
use iroha_data_model::error::TransactionLimitError;
use iroha_data_model::error::TransactionRejectionReason;
use iroha_data_model::error::TriggerExecutionFail;
use iroha_data_model::error::ValidationFail;
use iroha_data_model::error::WasmExecutionFail;
use iroha_data_model::isi::InstructionBox;
use iroha_data_model::metadata::Metadata;
use iroha_data_model::name::Name;
use iroha_data_model::transaction::DataTriggerStep;
use iroha_data_model::transaction::Executable;
use iroha_data_model::transaction::ExecutionStep;
use iroha_data_model::transaction::SignedTransaction;
use iroha_data_model::transaction::TimeTriggerEntrypoint;
use iroha_data_model::transaction::TransactionBuilder;
use iroha_data_model::transaction::TransactionEntrypoint;
use iroha_data_model::transaction::TransactionResult;
use iroha_data_model::transaction::WasmSmartContract;
use iroha_data_model::trigger::TriggerId;
use iroha_data_model::ChainId;
use core::time::Duration;

fn key() -> PrivateKey {
    PrivateKey::from_bytes(vec![5u8; 32]).unwrap()
}

fn authority() -> AccountId {
    AccountId::new(DomainId::new(Name::new("wonderland".to_string())), key().public_key())
}

fn all_instruction_kinds() -> Vec<InstructionBox> {
    vec![
        InstructionBox::Burn("b".to_string()),
        InstructionBox::Mint("m".to_string()),
        InstructionBox::Register("r".to_string()),
        InstructionBox::Transfer("t".to_string()),
        InstructionBox::Unregister("u".to_string()),
        InstructionBox::SetKeyValue("skv".to_string()),
        InstructionBox::RemoveKeyValue("rkv".to_string()),
        InstructionBox::Grant("g".to_string()),
        InstructionBox::Revoke("rv".to_string()),
        InstructionBox::ExecuteTrigger("et".to_string()),
        InstructionBox::SetParameter("sp".to_string()),
        InstructionBox::Upgrade("up".to_string()),
        InstructionBox::Log("lg".to_string()),
        InstructionBox::Custom("c".to_string()),
    ]
}

#[test]
fn executable_instruction_list_round_trips() {
    let executable = Executable::Instructions(all_instruction_kinds());
    let bytes = executable.encode();
    let decoded = Executable::decode(&bytes).unwrap();
    assert_eq!(decoded, executable);
}

#[test]
fn executable_wasm_round_trips() {
    let executable = Executable::Wasm(WasmSmartContract::from_compiled(vec![0, 97, 115, 109]));
    let bytes = executable.encode();
    let decoded = Executable::decode(&bytes).unwrap();
    assert_eq!(decoded, executable);
}

#[test]
fn executable_encoding_differs_from_its_input() {
    let blob = vec![1u8, 2, 3, 4];
    let executable = Executable::Wasm(WasmSmartContract::from_compiled(blob.clone()));
    assert_ne!(executable.encode(), blob);
}

#[test]
fn signed_transaction_round_trips() {
    let mut builder = TransactionBuilder::new_with_time(
        ChainId::new("chain-0".to_string()),
        authority(),
        1_700_000_000_000,
    )
    .with_instructions(all_instruction_kinds())
    .with_metadata(Metadata::from_entries(vec![(
        Name::new("purpose".to_string()),
        "test".to_string(),
    )]));
    builder.set_nonce(7);
    builder.set_ttl(Duration::from_millis(60_000));
    let tx = builder.sign(&key());

    let bytes = tx.encode();
    let decoded = SignedTransaction::decode(&bytes).unwrap();
    assert_eq!(decoded.signature(), tx.signature());
    assert_eq!(decoded.chain().inner, tx.chain().inner);
    assert_eq!(decoded.authority(), tx.authority());
    assert_eq!(decoded.creation_time(), tx.creation_time());
    assert_eq!(decoded.time_to_live(), tx.time_to_live());
    assert_eq!(decoded.nonce(), tx.nonce());
    assert_eq!(decoded.instructions(), tx.instructions());
    assert_eq!(decoded.metadata(), tx.metadata());
    assert_eq!(decoded.hash(), tx.hash());
    assert!(decoded.verify_signature().is_ok());
}

#[test]
fn external_entrypoint_round_trips() {
    let tx = TransactionBuilder::new_with_time(
        ChainId::new("chain-0".to_string()),
        authority(),
        1_700_000_000_000,
    )
    .sign(&key());
    let entrypoint = TransactionEntrypoint::External(tx);
    let bytes = entrypoint.encode();
    let decoded = TransactionEntrypoint::decode(&bytes).unwrap();
    assert_eq!(decoded.hash(), entrypoint.hash());
    assert_eq!(decoded.authority(), entrypoint.authority());
    assert!(matches!(decoded, TransactionEntrypoint::External(_)));
}

#[test]
fn time_entrypoint_round_trips() {
    let entrypoint = TransactionEntrypoint::Time(TimeTriggerEntrypoint {
        id: TriggerId::new(Name::new("hourly".to_string())),
        instructions: ExecutionStep(all_instruction_kinds()),
        authority: authority(),
    });
    let bytes = entrypoint.encode();
    let decoded = TransactionEntrypoint::decode(&bytes).unwrap();
    assert_eq!(decoded.hash(), entrypoint.hash());
    assert_eq!(decoded.authority(), entrypoint.authority());
    assert!(matches!(decoded, TransactionEntrypoint::Time(_)));
}

#[test]
fn success_result_round_trips() {
    let result = TransactionResult(Ok(vec![
        DataTriggerStep {
            id: TriggerId::new(Name::new("first".to_string())),
            instructions: ExecutionStep(vec![InstructionBox::Mint("1 rose".to_string())]),
        },
        DataTriggerStep {
            id: TriggerId::new(Name::new("second".to_string())),
            instructions: ExecutionStep(vec![]),
        },
    ]));
    let bytes = result.encode();
    let decoded = TransactionResult::decode(&bytes).unwrap();
    assert_eq!(decoded, result);
    assert_eq!(decoded.hash(), result.hash());
}

#[test]
fn empty_success_result_round_trips() {
    let result = TransactionResult(Ok(vec![]));
    let decoded = TransactionResult::decode(&result.encode()).unwrap();
    assert_eq!(decoded, result);
}

#[test]
fn every_rejection_reason_round_trips() {
    let reasons = vec![
        TransactionRejectionReason::AccountDoesNotExist(FindError::Account(authority())),
        TransactionRejectionReason::LimitCheck(TransactionLimitError {
            reason: "too big".to_string(),
        }),
        TransactionRejectionReason::Validation(ValidationFail {
            reason: "not permitted".to_string(),
        }),
        TransactionRejectionReason::InstructionExecution(Box::new(InstructionExecutionFail {
            instruction: InstructionBox::Transfer("rose".to_string()),
            reason: "no balance".to_string(),
        })),
        TransactionRejectionReason::WasmExecution(WasmExecutionFail {
            reason: "trap".to_string(),
        }),
        TransactionRejectionReason::TriggerExecution(TriggerExecutionFail::MaxDepthExceeded),
    ];
    for reason in reasons {
        let result = TransactionResult(Err(reason));
        let decoded = TransactionResult::decode(&result.encode()).unwrap();
        assert_eq!(decoded, result);
        assert_eq!(decoded.hash(), result.hash());
    }
}

#[test]
fn result_hash_from_inner_agrees_with_hash() {
    let inner = Ok(vec![DataTriggerStep {
        id: TriggerId::new(Name::new("only".to_string())),
        instructions: ExecutionStep(vec![]),
    }]);
    let result = TransactionResult(inner);
    assert_eq!(TransactionResult::hash_from_inner(&result.0), result.hash());
}

#[test]
fn decoding_garbage_fails() {
    assert!(TransactionResult::decode(&[0xff, 0xff, 0xff]).is_none());
    assert!(SignedTransaction::decode(&[]).is_none());
}

#[test]
fn checked_variants_agree_on_ordinary_values() {
    let tx = TransactionBuilder::new_with_time(
        ChainId::new("chain-0".to_string()),
        authority(),
        1_700_000_000_000,
    )
    .with_instructions(vec![InstructionBox::Mint("1 rose".to_string())])
    .try_sign(&key())
    .unwrap();
    assert_eq!(tx.try_hash().unwrap(), tx.hash());
    assert_eq!(tx.try_encode().unwrap(), tx.encode());
    assert!(tx.try_verify_signature().unwrap().is_ok());

    let entrypoint = TransactionEntrypoint::External(tx);
    assert_eq!(entrypoint.try_hash().unwrap(), entrypoint.hash());
    assert_eq!(entrypoint.try_encode().unwrap(), entrypoint.encode());

    let result = TransactionResult(Ok(vec![DataTriggerStep {
        id: TriggerId::new(Name::new("only".to_string())),
        instructions: ExecutionStep(vec![]),
    }]));
    assert_eq!(result.try_hash().unwrap(), result.hash());
    assert_eq!(result.try_encode().unwrap(), result.encode());
}
