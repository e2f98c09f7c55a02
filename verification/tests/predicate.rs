use iroha_data_model::account::AccountId;
use iroha_data_model::account::DomainId;
use iroha_data_model::crypto::PrivateKey;
use iroha_data_model::error::TransactionRejectionReason;
use iroha_data_model::error::TriggerExecutionFail;
use iroha_data_model::isi::InstructionBox;
use iroha_data_model::name::Name;
use iroha_data_model::predicate::CompoundPredicate;
use iroha_data_model::predicate::NamePrototype;
use iroha_data_model::predicate::StringPredicateAtom;
use iroha_data_model::predicate::StringPrototype;
use iroha_data_model::predicate::TransactionEntrypointHashPredicateAtom;
use iroha_data_model::predicate::TransactionEntrypointPredicateAtom;
use iroha_data_model::predicate::TransactionResultHashPredicateAtom;
use iroha_data_model::predicate::TransactionResultPredicateAtom;
use iroha_data_model::transaction::DataTriggerStep;
use iroha_data_model::transaction::ExecutionStep;
use iroha_data_model::transaction::TimeTriggerEntrypoint;
use iroha_data_model::transaction::TransactionBuilder;
use iroha_data_model::transaction::TransactionEntrypoint;
use iroha_data_model::transaction::TransactionResult;
use iroha_data_model::trigger::TriggerId;
use iroha_data_model::ChainId;

fn key() -> PrivateKey {
    PrivateKey::from_bytes(vec![2u8; 32]).unwrap()
}

fn authority() -> AccountId {
    AccountId::new(DomainId::new(Name::new("wonderland".to_string())), key().public_key())
}

#[test]
fn string_atom_equals() {
    let atom = StringPredicateAtom::Equals("alice".to_string());
    assert!(atom.applies(&"alice".to_string()));
    assert!(!atom.applies(&"alicia".to_string()));
    assert!(!atom.applies(&"alic".to_string()));
}

#[test]
fn string_atom_contains() {
    let atom = StringPredicateAtom::Contains("lan".to_string());
    assert!(atom.applies(&"wonderland".to_string()));
    assert!(!atom.applies(&"looking-glass".to_string()));
    let empty = StringPredicateAtom::Contains(String::new());
    assert!(empty.applies(&String::new()));
    assert!(empty.applies(&"anything".to_string()));
}

#[test]
fn string_atom_starts_and_ends() {
    let starts = StringPredicateAtom::StartsWith("wonder".to_string());
    assert!(starts.applies(&"wonderland".to_string()));
    assert!(!starts.applies(&"underland".to_string()));
    let ends = StringPredicateAtom::EndsWith("land".to_string());
    assert!(ends.applies(&"wonderland".to_string()));
    assert!(!ends.applies(&"landing".to_string()));
}

#[test]
fn string_atom_applies_to_name() {
    let atom = StringPredicateAtom::StartsWith("won".to_string());
    assert!(atom.applies_to_name(&Name::new("wonderland".to_string())));
    assert!(!atom.applies_to_name(&Name::new("narnia".to_string())));
}

#[test]
fn prototypes_build_atoms() {
    let p = StringPrototype {}.eq("x".to_string());
    assert_eq!(p, CompoundPredicate::Atom(StringPredicateAtom::Equals("x".to_string())));
    let q = NamePrototype {}.contains("y".to_string());
    assert_eq!(q, CompoundPredicate::Atom(StringPredicateAtom::Contains("y".to_string())));
    let r = StringPrototype {}.starts_with("a".to_string());
    let s = NamePrototype {}.ends_with("b".to_string());
    assert!(r.applies_to_str("abc"));
    assert!(s.applies_to_str("ab"));
}

#[test]
fn compound_predicates_combine() {
    let p = CompoundPredicate::And(
        Box::new(CompoundPredicate::Atom(StringPredicateAtom::StartsWith("won".to_string()))),
        Box::new(CompoundPredicate::Not(Box::new(CompoundPredicate::Atom(
            StringPredicateAtom::EndsWith("ing".to_string()),
        )))),
    );
    assert!(p.applies_to_str("wonderland"));
    assert!(!p.applies_to_str("wondering"));
    let q = CompoundPredicate::Or(
        Box::new(CompoundPredicate::Atom(StringPredicateAtom::Equals("a".to_string()))),
        Box::new(CompoundPredicate::Atom(StringPredicateAtom::Equals("b".to_string()))),
    );
    assert!(q.applies_to_str("a"));
    assert!(q.applies_to_str("b"));
    assert!(!q.applies_to_str("c"));
}

#[test]
fn entrypoint_atom_is_external() {
    let tx = TransactionBuilder::new_with_time(
        ChainId::new("chain-0".to_string()),
        authority(),
        1_700_000_000_000,
    )
    .sign(&key());
    let external = TransactionEntrypoint::External(tx);
    let time = TransactionEntrypoint::Time(TimeTriggerEntrypoint {
        id: TriggerId::new(Name::new("hourly".to_string())),
        instructions: ExecutionStep(vec![]),
        authority: authority(),
    });
    let atom = TransactionEntrypointPredicateAtom::IsExternal;
    assert!(atom.applies(&external));
    assert!(!atom.applies(&time));
}

#[test]
fn entrypoint_hash_atom_compares_hashes() {
    let tx = TransactionBuilder::new_with_time(
        ChainId::new("chain-0".to_string()),
        authority(),
        1_700_000_000_000,
    )
    .sign(&key());
    let external = TransactionEntrypoint::External(tx);
    let time = TransactionEntrypoint::Time(TimeTriggerEntrypoint {
        id: TriggerId::new(Name::new("hourly".to_string())),
        instructions: ExecutionStep(vec![]),
        authority: authority(),
    });
    let atom = TransactionEntrypointHashPredicateAtom::Equals(external.hash());
    assert!(atom.applies(&external.hash()));
    assert!(!atom.applies(&time.hash()));
}

#[test]
fn result_atom_is_ok() {
    let ok = TransactionResult(Ok(vec![]));
    let rejected = TransactionResult(Err(TransactionRejectionReason::TriggerExecution(
        TriggerExecutionFail::MaxDepthExceeded,
    )));
    let atom = TransactionResultPredicateAtom::IsOk;
    assert!(atom.applies(&ok));
    assert!(!atom.applies(&rejected));
}

#[test]
fn result_atom_contains_data_trigger() {
    let result = TransactionResult(Ok(vec![
        DataTriggerStep {
            id: TriggerId::new(Name::new("first".to_string())),
            instructions: ExecutionStep(vec![InstructionBox::Log("x".to_string())]),
        },
        DataTriggerStep {
            id: TriggerId::new(Name::new("second".to_string())),
            instructions: ExecutionStep(vec![]),
        },
    ]));
    let present =
        TransactionResultPredicateAtom::ContainsDataTrigger(TriggerId::new(Name::new(
            "second".to_string(),
        )));
    let absent = TransactionResultPredicateAtom::ContainsDataTrigger(TriggerId::new(Name::new(
        "third".to_string(),
    )));
    assert!(present.applies(&result));
    assert!(!absent.applies(&result));
    let rejected = TransactionResult(Err(TransactionRejectionReason::TriggerExecution(
        TriggerExecutionFail::MaxDepthExceeded,
    )));
    assert!(!present.applies(&rejected));
}

#[test]
fn result_hash_atom_compares_hashes() {
    let ok = TransactionResult(Ok(vec![]));
    let rejected = TransactionResult(Err(TransactionRejectionReason::TriggerExecution(
        TriggerExecutionFail::MaxDepthExceeded,
    )));
    let atom = TransactionResultHashPredicateAtom::Equals(ok.hash());
    assert!(atom.applies(&ok.hash()));
    assert!(!atom.applies(&rejected.hash()));
}

#[test]
fn string_atoms_handle_non_ascii_text() {
    let contains = StringPredicateAtom::Contains("ï".to_string());
    assert!(contains.applies(&"naïve".to_string()));
    assert!(!contains.applies(&"naive".to_string()));
    let ends = StringPredicateAtom::EndsWith("ïve".to_string());
    assert!(ends.applies(&"naïve".to_string()));
}
