use iroha_data_model::account::AccountId;
use iroha_data_model::account::DomainId;
use iroha_data_model::crypto::PrivateKey;
use iroha_data_model::isi::InstructionBox;
use iroha_data_model::name::Name;
use iroha_data_model::transaction::ExecutionStep;
use iroha_data_model::transaction::TimeTriggerEntrypoint;
use iroha_data_model::transaction::TransactionBuilder;
use iroha_data_model::transaction::TransactionEntrypoint;
use iroha_data_model::trigger::TriggerId;
use iroha_data_model::ChainId;

fn key() -> PrivateKey {
    PrivateKey::from_bytes(vec![3u8; 32]).unwrap()
}

fn authority() -> AccountId {
    AccountId::new(DomainId::new(Name::new("wonderland".to_string())), key().public_key())
}

fn time_entrypoint() -> TimeTriggerEntrypoint {
    TimeTriggerEntrypoint {
        id: TriggerId::new(Name::new("hourly".to_string())),
        instructions: ExecutionStep(vec![InstructionBox::Log("tick".to_string())]),
        authority: authority(),
    }
}

#[test]
fn external_entrypoint_keeps_the_transaction_hash_value() {
    let tx = TransactionBuilder::new_with_time(
        ChainId::new("chain-0".to_string()),
        authority(),
        1_700_000_000_000,
    )
    .sign(&key());
    let tx_hash = tx.hash();
    let as_entrypoint = tx.hash_as_entrypoint();
    let wrapped = TransactionEntrypoint::External(tx);
    assert_eq!(as_entrypoint.as_untyped(), tx_hash.as_untyped());
    assert_eq!(wrapped.hash().as_untyped(), tx_hash.as_untyped());
}

#[test]
fn time_entrypoint_hash_is_deterministic() {
    let e1 = time_entrypoint();
    let e2 = time_entrypoint();
    assert_eq!(e1.hash_as_entrypoint(), e2.hash_as_entrypoint());
    let wrapped = TransactionEntrypoint::Time(e1);
    assert_eq!(wrapped.hash(), time_entrypoint().hash_as_entrypoint());
}

#[test]
fn entrypoint_variants_hash_differently() {
    let tx = TransactionBuilder::new_with_time(
        ChainId::new("chain-0".to_string()),
        authority(),
        1_700_000_000_000,
    )
    .sign(&key());
    let external = TransactionEntrypoint::External(tx);
    let time = TransactionEntrypoint::Time(time_entrypoint());
    assert_ne!(external.hash(), time.hash());
}

#[test]
fn entrypoint_authority_dispatches_per_variant() {
    let tx = TransactionBuilder::new_with_time(
        ChainId::new("chain-0".to_string()),
        authority(),
        1_700_000_000_000,
    )
    .sign(&key());
    let external = TransactionEntrypoint::External(tx);
    let time = TransactionEntrypoint::Time(time_entrypoint());
    assert_eq!(external.authority(), &authority());
    assert_eq!(time.authority(), &authority());
}
