//! Proofs over real, BLS-signed checkpoints.

use iota_lite_poc::checkpoint::{judge_signatures, CertifiedCheckpointSummary, CheckpointContents};
use iota_lite_poc::committee::Committee;
use iota_lite_poc::error::{CertificationError, DecodeError, ResponseError, VerifyError};
use iota_lite_poc::object::{Object, ObjectRef};
use iota_lite_poc::proofs::{
    judge_proof, verify_committee_target, verify_event, verify_event_targets, verify_object,
    verify_object_targets, verify_required_transaction_proof, verify_transaction_proof,
};
use iota_lite_poc::response::{
    checkpoint_contents_from_response, checkpoint_sequence_from_response,
    checkpoint_summary_from_response, committee_from_response, effects_from_response,
    events_from_response_if_present, executed_transaction_from_response,
    transaction_from_response, transaction_proof_from_responses, CheckpointResponse,
    CommitteeMessage, EventsMessage, ExecutedTransaction, MemberMessage, Message,
};
use iota_lite_poc::transaction::{
    Event, EventID, Transaction, TransactionEffects, TransactionEvents,
};
use iota_lite_poc::walk::CommitteeWalk;
use iota_lite_poc::{verify_proof, Proof, ProofTargets, TransactionProof};

use iota_sdk_crypto::bls12381::Bls12381PrivateKey;
use iota_sdk_crypto::validator::ValidatorCommitteeSignatureAggregator;
use iota_sdk_grpc_types::v1::bcs::BcsData;
use iota_sdk_grpc_types::v1::versioned::{
    VersionedCheckpointSummary, VersionedEvent, VersionedObject,
    VersionedValidatorAggregatedSignature,
};

/// Four validators, ordered by public key.
fn keys(seed: u8) -> Vec<Bls12381PrivateKey> {
    let mut keys: Vec<Bls12381PrivateKey> = (1..=4u8)
        .map(|i| Bls12381PrivateKey::new([seed + i; 32]).unwrap())
        .collect();
    keys.sort_by_key(|key| key.public_key().into_bytes());
    keys
}

fn members(keys: &[Bls12381PrivateKey]) -> Vec<iota_sdk_types::ValidatorCommitteeMember> {
    keys.iter()
        .map(|key| iota_sdk_types::ValidatorCommitteeMember {
            public_key: key.public_key(),
            stake: 2500,
        })
        .collect()
}

fn committee(epoch: u64, keys: &[Bls12381PrivateKey]) -> Committee {
    let rights: Vec<([u8; 96], u64)> = keys
        .iter()
        .rev()
        .map(|key| (key.public_key().into_bytes(), 2500))
        .collect();
    Committee::new(epoch, &rights)
}

fn bcs<T: serde::Serialize>(value: &T) -> Vec<u8> {
    BcsData::serialize(value).unwrap().into()
}

fn sdk_transaction(sender: u8) -> iota_sdk_types::Transaction {
    iota_sdk_types::Transaction::V1(iota_sdk_types::TransactionV1 {
        kind: iota_sdk_types::TransactionKind::Programmable(
            iota_sdk_types::ProgrammableTransaction {
                inputs: vec![],
                commands: vec![],
            },
        ),
        sender: iota_sdk_types::Address::new([sender; 32]),
        gas_payment: iota_sdk_types::GasPayment {
            objects: vec![],
            owner: iota_sdk_types::Address::new([sender; 32]),
            price: 1000,
            budget: 5_000_000,
        },
        expiration: iota_sdk_types::TransactionExpiration::None,
    })
}

fn sdk_signature() -> iota_sdk_types::UserSignature {
    iota_sdk_types::UserSignature::Simple(iota_sdk_types::SimpleSignature::new_ed25519(
        iota_sdk_types::Ed25519Signature::new([7; 64]),
        iota_sdk_types::Ed25519PublicKey::new([8; 32]),
    ))
}

fn sdk_event(content: u8) -> iota_sdk_types::Event {
    iota_sdk_types::Event {
        package_id: iota_sdk_types::ObjectId::new([3; 32]),
        module: iota_sdk_types::Identifier::new("market").unwrap(),
        sender: iota_sdk_types::Address::new([1; 32]),
        struct_tag: iota_sdk_types::StructTag::new_gas(),
        contents: vec![content],
    }
}

fn sdk_object(id: u8, version: u64) -> iota_sdk_types::Object {
    iota_sdk_types::Object::new(
        iota_sdk_types::ObjectData::Struct(
            iota_sdk_types::MoveStruct::new(
                iota_sdk_types::MoveObjectType::new(iota_sdk_types::StructTag::new_gas_coin()),
                iota_sdk_types::Version::from_u64(version),
                vec![id; 40],
            )
            .unwrap(),
        ),
        iota_sdk_types::Owner::Address(iota_sdk_types::Address::new([1; 32])),
        iota_sdk_types::TransactionDigest::new([2; 32]),
        0,
    )
}

fn changed_object(object: &iota_sdk_types::Object, created: bool) -> iota_sdk_types::ChangedObject {
    let reference = object.object_ref();
    iota_sdk_types::ChangedObject {
        object_id: reference.object_id,
        input_state: if created {
            iota_sdk_types::ObjectIn::Missing
        } else {
            iota_sdk_types::ObjectIn::Data {
                version: iota_sdk_types::Version::from_u64(4),
                digest: iota_sdk_types::ObjectDigest::new([6; 32]),
                owner: object.owner,
            }
        },
        output_state: iota_sdk_types::ObjectOut::ObjectWrite {
            digest: reference.digest,
            owner: object.owner,
        },
        id_operation: if created {
            iota_sdk_types::IdOperation::Created
        } else {
            iota_sdk_types::IdOperation::None
        },
    }
}

fn gas() -> iota_sdk_types::GasCostSummary {
    iota_sdk_types::GasCostSummary {
        computation_cost: 1,
        computation_cost_burned: 1,
        storage_cost: 2,
        storage_rebate: 0,
        non_refundable_storage_fee: 0,
    }
}

fn sdk_effects(
    transaction: &iota_sdk_types::Transaction,
    events: Option<&iota_sdk_types::TransactionEvents>,
) -> iota_sdk_types::TransactionEffects {
    iota_sdk_types::TransactionEffects::V1(Box::new(iota_sdk_types::TransactionEffectsV1 {
        status: iota_sdk_types::ExecutionStatus::Success,
        epoch: 5,
        gas_cost_summary: gas(),
        transaction_digest: transaction.digest(),
        gas_object_index: None,
        events_digest: events.map(|events| events.digest()),
        dependencies: vec![],
        lamport_version: iota_sdk_types::Version::from_u64(9),
        changed_objects: vec![
            changed_object(&sdk_object(11, 9), true),
            changed_object(&sdk_object(12, 9), false),
            iota_sdk_types::ChangedObject {
                object_id: iota_sdk_types::ObjectId::new([13; 32]),
                input_state: iota_sdk_types::ObjectIn::Data {
                    version: iota_sdk_types::Version::from_u64(4),
                    digest: iota_sdk_types::ObjectDigest::new([6; 32]),
                    owner: iota_sdk_types::Owner::Immutable,
                },
                output_state: iota_sdk_types::ObjectOut::Missing,
                id_operation: iota_sdk_types::IdOperation::Deleted,
            },
        ],
        unchanged_shared_objects: vec![],
        auxiliary_data_digest: None,
    }))
}

fn sdk_contents(
    executions: &[(
        &iota_sdk_types::Transaction,
        &iota_sdk_types::TransactionEffects,
    )],
) -> iota_sdk_types::CheckpointContents {
    iota_sdk_types::CheckpointContents::new_v1(iota_sdk_types::CheckpointContentsV1::new(
        executions
            .iter()
            .map(
                |(transaction, effects)| iota_sdk_types::CheckpointTransactionInfo {
                    transaction: transaction.digest(),
                    effects: effects.digest(),
                    signatures: vec![sdk_signature()],
                },
            )
            .collect(),
    ))
}

fn sdk_summary(
    epoch: u64,
    contents: &iota_sdk_types::CheckpointContents,
    next: Option<&[Bls12381PrivateKey]>,
) -> iota_sdk_types::CheckpointSummary {
    iota_sdk_types::CheckpointSummary {
        epoch,
        sequence_number: 77,
        network_total_transactions: 1000,
        contents_digest: contents.digest(),
        previous_digest: None,
        epoch_rolling_gas_cost_summary: gas(),
        timestamp_ms: 1_700_000_000_000,
        checkpoint_commitments: vec![],
        end_of_epoch_data: next.map(|keys| iota_sdk_types::EndOfEpochData {
            next_epoch_committee: members(keys),
            next_epoch_protocol_version: 1,
            epoch_commitments: vec![],
            epoch_supply_change: 0,
        }),
        version_specific_data: vec![],
    }
}

/// The encodings of the summary and of the signature of the first three
/// validators on it.
fn certify(
    keys: &[Bls12381PrivateKey],
    summary: &iota_sdk_types::CheckpointSummary,
) -> (Vec<u8>, Vec<u8>) {
    let committee = iota_sdk_types::ValidatorCommittee {
        epoch: summary.epoch,
        members: members(keys),
    };
    let mut aggregator =
        ValidatorCommitteeSignatureAggregator::new_checkpoint_summary(committee, summary).unwrap();
    for key in &keys[..3] {
        aggregator
            .add_signature(key.sign_checkpoint_summary(summary))
            .unwrap();
    }
    (
        bcs(&VersionedCheckpointSummary::V1(summary.clone())),
        bcs(&VersionedValidatorAggregatedSignature::V1(
            aggregator.finish().unwrap(),
        )),
    )
}

/// A checkpoint of epoch 5 with two executed transactions, of which the first
/// emitted two events.
struct Ledger {
    keys: Vec<Bls12381PrivateKey>,
    transaction: iota_sdk_types::Transaction,
    other_transaction: iota_sdk_types::Transaction,
    events: iota_sdk_types::TransactionEvents,
    effects: iota_sdk_types::TransactionEffects,
    other_effects: iota_sdk_types::TransactionEffects,
    contents: iota_sdk_types::CheckpointContents,
    summary: Vec<u8>,
    signature: Vec<u8>,
}

fn ledger() -> Ledger {
    ledger_of_epoch(5, None)
}

fn ledger_of_epoch(epoch: u64, next: Option<&[Bls12381PrivateKey]>) -> Ledger {
    let keys = keys(0);
    let transaction = sdk_transaction(1);
    let other_transaction = sdk_transaction(2);
    let events = iota_sdk_types::TransactionEvents(vec![sdk_event(21), sdk_event(22)]);
    let effects = sdk_effects(&transaction, Some(&events));
    let other_effects = sdk_effects(&other_transaction, None);
    let contents = sdk_contents(&[
        (&other_transaction, &other_effects),
        (&transaction, &effects),
    ]);
    let (summary, signature) = certify(&keys, &sdk_summary(epoch, &contents, next));
    Ledger {
        keys,
        transaction,
        other_transaction,
        events,
        effects,
        other_effects,
        contents,
        summary,
        signature,
    }
}

impl Ledger {
    fn committee(&self) -> Committee {
        committee(5, &self.keys)
    }

    fn checkpoint_summary(&self) -> CertifiedCheckpointSummary {
        CertifiedCheckpointSummary::from_bcs(self.summary.clone(), self.signature.clone()).unwrap()
    }

    fn transaction_proof(&self) -> TransactionProof {
        TransactionProof {
            checkpoint_contents: CheckpointContents::from_bcs(bcs(&self.contents)).unwrap(),
            transaction: signed(&self.transaction),
            effects: TransactionEffects::from_bcs(bcs(&self.effects)).unwrap(),
            events: Some(decoded_events(&self.events)),
        }
    }

    fn proof_of(&self, targets: ProofTargets) -> Proof {
        Proof {
            targets,
            checkpoint_summary: self.checkpoint_summary(),
            contents_proof: Some(self.transaction_proof()),
        }
    }

    fn event_id(&self, event_seq: u64) -> EventID {
        EventID {
            tx_digest: self.transaction.digest().into_bytes(),
            event_seq,
        }
    }

    fn executed_transaction(&self) -> ExecutedTransaction {
        ExecutedTransaction {
            transaction: message(bcs(&self.transaction)),
            signatures: Some(vec![Message {
                bcs: Some(bcs(&sdk_signature())),
            }]),
            effects: message(bcs(&self.effects)),
            events: Some(EventsMessage {
                events: Some(
                    self.events
                        .iter()
                        .map(|event| Message {
                            bcs: Some(event_bcs(event)),
                        })
                        .collect(),
                ),
            }),
            checkpoint: Some(77),
        }
    }

    fn checkpoint_response(&self) -> CheckpointResponse {
        CheckpointResponse {
            summary: message(self.summary.clone()),
            signature: message(self.signature.clone()),
            contents: message(bcs(&self.contents)),
        }
    }
}

fn message(bcs: Vec<u8>) -> Option<Message> {
    Some(Message { bcs: Some(bcs) })
}

fn signed(transaction: &iota_sdk_types::Transaction) -> Transaction {
    Transaction::from_bcs(bcs(transaction))
        .unwrap()
        .with_signatures(vec![bcs(&sdk_signature())])
        .unwrap()
}

fn event_bcs(event: &iota_sdk_types::Event) -> Vec<u8> {
    bcs(&VersionedEvent::V1(event.clone()))
}

fn event(event: &iota_sdk_types::Event) -> Event {
    Event {
        bcs: event_bcs(event),
    }
}

fn decoded_events(events: &iota_sdk_types::TransactionEvents) -> TransactionEvents {
    TransactionEvents::from_events(events.iter().map(event).collect()).unwrap()
}

fn object(object: &iota_sdk_types::Object) -> Object {
    Object::from_bcs(bcs(&VersionedObject::V1(object.clone()))).unwrap()
}

fn reference(object: &iota_sdk_types::Object) -> ObjectRef {
    let reference = object.object_ref();
    ObjectRef {
        object_id: reference.object_id.into_bytes(),
        version: reference.version.as_u64(),
        digest: reference.digest.into_bytes(),
    }
}

// Decoding.

#[test]
fn summary_fields_come_from_the_encoding() {
    let ledger = ledger();
    let summary = ledger.checkpoint_summary();
    let sdk = sdk_summary(5, &ledger.contents, None);
    assert_eq!(summary.epoch(), 5);
    assert_eq!(summary.sequence_number(), 77);
    assert_eq!(*summary.digest(), sdk.digest().into_bytes());
    assert!(summary.next_epoch_committee().is_none());
    assert_eq!(*summary.bcs(), ledger.summary);
    assert_eq!(*summary.signature(), ledger.signature);
}

#[test]
fn summary_names_the_next_committee() {
    let next = keys(100);
    let ledger = ledger_of_epoch(5, Some(&next));
    let summary = ledger.checkpoint_summary();
    let rights: Vec<([u8; 96], u64)> = next
        .iter()
        .map(|key| (key.public_key().into_bytes(), 2500))
        .collect();
    assert_eq!(summary.next_epoch_committee(), Some(&rights));
}

#[test]
fn contents_list_the_executions() {
    let ledger = ledger();
    let contents = CheckpointContents::from_bcs(bcs(&ledger.contents)).unwrap();
    let effects = TransactionEffects::from_bcs(bcs(&ledger.effects)).unwrap();
    assert_eq!(*contents.digest(), ledger.contents.digest().into_bytes());
    assert_eq!(*contents.bcs(), bcs(&ledger.contents));
    assert!(contents.lists(&effects.execution_digests()));
    let mut absent = effects.execution_digests();
    absent.effects = [0; 32];
    assert!(!contents.lists(&absent));
}

#[test]
fn transaction_digest_leaves_the_signatures_out() {
    let ledger = ledger();
    let unsigned = Transaction::from_bcs(bcs(&ledger.transaction)).unwrap();
    assert!(unsigned.signatures().is_empty());
    let signed = signed(&ledger.transaction);
    assert_eq!(*signed.signatures(), vec![bcs(&sdk_signature())]);
    assert_eq!(*signed.digest(), ledger.transaction.digest().into_bytes());
    assert_eq!(signed.digest(), unsigned.digest());
    assert_eq!(*signed.bcs(), bcs(&ledger.transaction));
}

#[test]
fn effects_tell_what_was_executed() {
    let ledger = ledger();
    let effects = TransactionEffects::from_bcs(bcs(&ledger.effects)).unwrap();
    let digests = effects.execution_digests();
    assert_eq!(digests.transaction, ledger.transaction.digest().into_bytes());
    assert_eq!(digests.effects, ledger.effects.digest().into_bytes());
    assert_eq!(
        *effects.events_digest(),
        Some(ledger.events.digest().into_bytes())
    );
    assert_eq!(
        *effects.all_changed_objects(),
        vec![
            reference(&sdk_object(12, 9)),
            reference(&sdk_object(11, 9))
        ]
    );
    assert_eq!(*effects.bcs(), bcs(&ledger.effects));
    let silent = TransactionEffects::from_bcs(bcs(&ledger.other_effects)).unwrap();
    assert_eq!(*silent.events_digest(), None);
}

#[test]
fn events_are_kept_in_order() {
    let ledger = ledger();
    let events = decoded_events(&ledger.events);
    assert_eq!(*events.digest(), ledger.events.digest().into_bytes());
    assert_eq!(
        *events.events(),
        vec![event(&sdk_event(21)), event(&sdk_event(22))]
    );
}

#[test]
fn object_reference_is_computed() {
    let sdk = sdk_object(11, 9);
    let object = object(&sdk);
    assert_eq!(object.compute_object_reference(), reference(&sdk));
    assert_eq!(*object.bcs(), bcs(&VersionedObject::V1(sdk)));
}

#[test]
fn undecodable_data_is_refused() {
    let ledger = ledger();
    let junk = vec![255u8; 3];
    assert_eq!(
        CertifiedCheckpointSummary::from_bcs(junk.clone(), ledger.signature.clone()).unwrap_err(),
        DecodeError::Summary
    );
    assert_eq!(
        CertifiedCheckpointSummary::from_bcs(ledger.summary.clone(), junk.clone()).unwrap_err(),
        DecodeError::ValidatorSignature
    );
    assert_eq!(
        CheckpointContents::from_bcs(junk.clone()).unwrap_err(),
        DecodeError::Contents
    );
    assert_eq!(
        Transaction::from_bcs(junk.clone()).unwrap_err(),
        DecodeError::Transaction
    );
    assert_eq!(
        signed(&ledger.transaction)
            .with_signatures(vec![bcs(&sdk_signature()), junk.clone()])
            .unwrap_err(),
        DecodeError::UserSignature
    );
    assert_eq!(
        TransactionEffects::from_bcs(junk.clone()).unwrap_err(),
        DecodeError::Effects
    );
    assert_eq!(
        TransactionEvents::from_events(vec![event(&sdk_event(1)), Event { bcs: junk.clone() }])
            .unwrap_err(),
        DecodeError::Events
    );
    assert_eq!(Object::from_bcs(junk).unwrap_err(), DecodeError::Object);
}

// Certification.

#[test]
fn quorum_certifies() {
    let ledger = ledger();
    let summary = ledger.checkpoint_summary();
    assert_eq!(summary.verify_authority_signatures(&ledger.committee()), Ok(()));
    let contents = CheckpointContents::from_bcs(bcs(&ledger.contents)).unwrap();
    assert_eq!(
        summary.verify_with_contents(&ledger.committee(), Some(&contents)),
        Ok(())
    );
    assert_eq!(summary.verify_with_contents(&ledger.committee(), None), Ok(()));
}

#[test]
fn other_committee_does_not_certify() {
    let ledger = ledger();
    let summary = ledger.checkpoint_summary();
    assert_eq!(
        summary.verify_authority_signatures(&committee(5, &keys(100))),
        Err(CertificationError::Signature)
    );
    assert_eq!(
        summary.verify_authority_signatures(&committee(6, &ledger.keys)),
        Err(CertificationError::CommitteeEpoch {
            committee: 6,
            signature: 5
        })
    );
}

#[test]
fn members_outside_the_quorum_weigh_in() {
    // With this stake the fourth validator, who did not sign, is needed.
    let ledger = ledger();
    let rights: Vec<([u8; 96], u64)> = ledger
        .keys
        .iter()
        .enumerate()
        .map(|(i, key)| {
            (
                key.public_key().into_bytes(),
                if i == 3 { 7000 } else { 1000 },
            )
        })
        .collect();
    assert_eq!(
        ledger
            .checkpoint_summary()
            .verify_authority_signatures(&Committee::new(5, &rights)),
        Err(CertificationError::Signature)
    );
}

#[test]
fn signature_of_another_epoch_does_not_certify() {
    let ledger = ledger();
    let (_, signature) = certify(&ledger.keys, &sdk_summary(4, &ledger.contents, None));
    let summary = CertifiedCheckpointSummary::from_bcs(ledger.summary.clone(), signature).unwrap();
    assert_eq!(
        summary.verify_authority_signatures(&ledger.committee()),
        Err(CertificationError::SummaryEpoch {
            summary: 5,
            signature: 4
        })
    );
}

#[test]
fn altered_summary_is_not_certified() {
    let ledger = ledger();
    let mut altered = sdk_summary(5, &ledger.contents, None);
    altered.timestamp_ms += 1;
    let summary = CertifiedCheckpointSummary::from_bcs(
        bcs(&VersionedCheckpointSummary::V1(altered)),
        ledger.signature.clone(),
    )
    .unwrap();
    assert_eq!(
        summary.verify_authority_signatures(&ledger.committee()),
        Err(CertificationError::Signature)
    );
    let mut proof = ledger.proof_of(ProofTargets::new());
    proof.checkpoint_summary = summary;
    assert_eq!(
        verify_proof(&ledger.committee(), &proof),
        Err(VerifyError::Certification(CertificationError::Signature))
    );
}

#[test]
fn signatures_are_judged_in_order() {
    assert_eq!(judge_signatures(3, 3, 3, true), Ok(()));
    assert_eq!(
        judge_signatures(3, 3, 3, false),
        Err(CertificationError::Signature)
    );
    assert_eq!(
        judge_signatures(3, 3, 4, false),
        Err(CertificationError::CommitteeEpoch {
            committee: 4,
            signature: 3
        })
    );
    assert_eq!(
        judge_signatures(2, 3, 4, false),
        Err(CertificationError::SummaryEpoch {
            summary: 2,
            signature: 3
        })
    );
}

// Proofs.

#[test]
fn transaction_proof_holds() {
    let ledger = ledger();
    let proof = ledger.proof_of(ProofTargets::new());
    assert_eq!(verify_proof(&ledger.committee(), &proof), Ok(()));
    assert_eq!(
        verify_transaction_proof(&ledger.transaction_proof()),
        Ok(())
    );
}

#[test]
fn empty_target_proves_certification() {
    let ledger = ledger();
    let proof = Proof {
        targets: ProofTargets::default(),
        checkpoint_summary: ledger.checkpoint_summary(),
        contents_proof: None,
    };
    assert_eq!(verify_proof(&ledger.committee(), &proof), Ok(()));
    assert_eq!(
        verify_proof(&committee(5, &keys(100)), &proof),
        Err(VerifyError::Certification(CertificationError::Signature))
    );
}

#[test]
fn targets_are_collected() {
    let next = keys(100);
    let targets = ProofTargets::new()
        .add_event(
            EventID {
                tx_digest: [1; 32],
                event_seq: 0,
            },
            event(&sdk_event(1)),
        )
        .add_object(reference(&sdk_object(1, 1)), object(&sdk_object(1, 1)))
        .add_object(reference(&sdk_object(2, 1)), object(&sdk_object(2, 1)))
        .set_committee(committee(1, &keys(0)))
        .set_committee(committee(6, &next));
    assert_eq!(targets.events.len(), 1);
    assert_eq!(targets.events[0].1, event(&sdk_event(1)));
    assert_eq!(targets.objects.len(), 2);
    assert_eq!(targets.objects[1].0, reference(&sdk_object(2, 1)));
    assert_eq!(targets.committee, Some(committee(6, &next)));
}

#[test]
fn event_and_object_targets_hold() {
    let ledger = ledger();
    let targets = ProofTargets::new()
        .add_event(ledger.event_id(1), event(&sdk_event(22)))
        .add_event(ledger.event_id(0), event(&sdk_event(21)))
        .add_object(reference(&sdk_object(11, 9)), object(&sdk_object(11, 9)))
        .add_object(reference(&sdk_object(12, 9)), object(&sdk_object(12, 9)));
    assert_eq!(
        verify_event_targets(&targets, &ledger.transaction_proof()),
        Ok(())
    );
    assert_eq!(
        verify_object_targets(&targets, &ledger.transaction_proof()),
        Ok(())
    );
    assert_eq!(
        verify_proof(&ledger.committee(), &ledger.proof_of(targets)),
        Ok(())
    );
}

#[test]
fn targets_need_a_transaction() {
    let ledger = ledger();
    let proof = Proof {
        targets: ProofTargets::new()
            .add_object(reference(&sdk_object(11, 9)), object(&sdk_object(11, 9))),
        checkpoint_summary: ledger.checkpoint_summary(),
        contents_proof: None,
    };
    assert_eq!(
        verify_proof(&ledger.committee(), &proof),
        Err(VerifyError::ContentsProofMissing)
    );
    let proof = Proof {
        targets: ProofTargets::new().add_event(ledger.event_id(0), event(&sdk_event(21))),
        checkpoint_summary: ledger.checkpoint_summary(),
        contents_proof: None,
    };
    assert_eq!(
        verify_required_transaction_proof(&proof),
        Err(VerifyError::ContentsProofMissing)
    );
    assert_eq!(
        verify_required_transaction_proof(&ledger.proof_of(ProofTargets::new())),
        Ok(())
    );
}

#[test]
fn altered_contents_are_rejected() {
    let ledger = ledger();
    let mut proof = ledger.proof_of(ProofTargets::new());
    let altered = sdk_contents(&[(&ledger.transaction, &ledger.effects)]);
    proof.contents_proof.as_mut().unwrap().checkpoint_contents =
        CheckpointContents::from_bcs(bcs(&altered)).unwrap();
    assert_eq!(
        verify_proof(&ledger.committee(), &proof),
        Err(VerifyError::Certification(
            CertificationError::ContentsDigest
        ))
    );
}

#[test]
fn altered_transaction_is_rejected() {
    let ledger = ledger();
    let mut proof = ledger.proof_of(ProofTargets::new());
    proof.contents_proof.as_mut().unwrap().transaction = signed(&ledger.other_transaction);
    assert_eq!(
        verify_proof(&ledger.committee(), &proof),
        Err(VerifyError::TransactionDigestMismatch)
    );
}

#[test]
fn altered_effects_are_rejected() {
    let ledger = ledger();
    let mut proof = ledger.proof_of(ProofTargets::new());
    let altered = sdk_effects(&ledger.transaction, None);
    proof.contents_proof.as_mut().unwrap().effects =
        TransactionEffects::from_bcs(bcs(&altered)).unwrap();
    assert_eq!(
        verify_proof(&ledger.committee(), &proof),
        Err(VerifyError::TransactionNotInCheckpoint)
    );
}

#[test]
fn altered_events_are_rejected() {
    let ledger = ledger();
    let mut proof = ledger.proof_of(ProofTargets::new());
    let altered = iota_sdk_types::TransactionEvents(vec![sdk_event(22), sdk_event(21)]);
    proof.contents_proof.as_mut().unwrap().events = Some(decoded_events(&altered));
    assert_eq!(
        verify_proof(&ledger.committee(), &proof),
        Err(VerifyError::EventsDigestMismatch)
    );
    proof.contents_proof.as_mut().unwrap().events = None;
    assert_eq!(
        verify_proof(&ledger.committee(), &proof),
        Err(VerifyError::EventsDigestMismatch)
    );
}

#[test]
fn events_of_a_silent_transaction_are_rejected() {
    let ledger = ledger();
    let mut transaction_proof = ledger.transaction_proof();
    transaction_proof.transaction = signed(&ledger.other_transaction);
    transaction_proof.effects = TransactionEffects::from_bcs(bcs(&ledger.other_effects)).unwrap();
    assert_eq!(
        verify_transaction_proof(&transaction_proof),
        Err(VerifyError::EventsDigestMismatch)
    );
    transaction_proof.events = None;
    assert_eq!(verify_transaction_proof(&transaction_proof), Ok(()));
    let targets = ProofTargets::new().add_event(
        EventID {
            tx_digest: ledger.other_transaction.digest().into_bytes(),
            event_seq: 0,
        },
        event(&sdk_event(21)),
    );
    assert_eq!(
        verify_event_targets(&targets, &transaction_proof),
        Err(VerifyError::EventsMissing)
    );
    assert_eq!(
        verify_event_targets(&ProofTargets::new(), &transaction_proof),
        Ok(())
    );
}

#[test]
fn altered_event_targets_are_rejected() {
    let ledger = ledger();
    let verify = |id: EventID, content: u8| {
        let targets = ProofTargets::new()
            .add_event(ledger.event_id(0), event(&sdk_event(21)))
            .add_event(id, event(&sdk_event(content)));
        verify_proof(&ledger.committee(), &ledger.proof_of(targets))
    };
    assert_eq!(verify(ledger.event_id(1), 22), Ok(()));
    assert_eq!(
        verify(ledger.event_id(1), 21),
        Err(VerifyError::EventMismatch)
    );
    assert_eq!(
        verify(ledger.event_id(2), 22),
        Err(VerifyError::EventOutOfBounds)
    );
    assert_eq!(
        verify(
            EventID {
                tx_digest: ledger.other_transaction.digest().into_bytes(),
                event_seq: 1
            },
            22
        ),
        Err(VerifyError::EventOfOtherTransaction)
    );
}

#[test]
fn first_failing_target_is_reported() {
    let ledger = ledger();
    let targets = ProofTargets::new()
        .add_event(ledger.event_id(0), event(&sdk_event(21)))
        .add_event(ledger.event_id(9), event(&sdk_event(22)))
        .add_event(ledger.event_id(1), event(&sdk_event(21)));
    assert_eq!(
        verify_event_targets(&targets, &ledger.transaction_proof()),
        Err(VerifyError::EventOutOfBounds)
    );
}

#[test]
fn events_are_checked_one_by_one() {
    let digest = [4u8; 32];
    let id = |event_seq| EventID {
        tx_digest: digest,
        event_seq,
    };
    let events = vec![Event { bcs: vec![1] }, Event { bcs: vec![2, 3] }];
    assert_eq!(
        verify_event(&digest, &events, &id(1), &Event { bcs: vec![2, 3] }),
        Ok(())
    );
    assert_eq!(
        verify_event(&digest, &events, &id(1), &Event { bcs: vec![2] }),
        Err(VerifyError::EventMismatch)
    );
    assert_eq!(
        verify_event(&digest, &events, &id(2), &Event { bcs: vec![1] }),
        Err(VerifyError::EventOutOfBounds)
    );
    assert_eq!(
        verify_event(&digest, &events, &id(1 << 32), &Event { bcs: vec![1] }),
        Err(VerifyError::EventOutOfBounds)
    );
    assert_eq!(
        verify_event(&digest, &events, &id(u64::MAX), &Event { bcs: vec![1] }),
        Err(VerifyError::EventOutOfBounds)
    );
    assert_eq!(
        verify_event(&[5; 32], &events, &id(0), &Event { bcs: vec![1] }),
        Err(VerifyError::EventOfOtherTransaction)
    );
}

#[test]
fn altered_object_targets_are_rejected() {
    let ledger = ledger();
    let verify = |reference: ObjectRef, of: &iota_sdk_types::Object| {
        let targets = ProofTargets::new()
            .add_object(self::reference(&sdk_object(11, 9)), object(&sdk_object(11, 9)))
            .add_object(reference, object(of));
        verify_proof(&ledger.committee(), &ledger.proof_of(targets))
    };
    let written = sdk_object(12, 9);
    let mut altered = written.clone();
    altered.storage_rebate = 1;
    assert_eq!(verify(reference(&written), &written), Ok(()));
    assert_eq!(
        verify(reference(&written), &altered),
        Err(VerifyError::ObjectReferenceMismatch)
    );
    assert_eq!(
        verify(reference(&altered), &altered),
        Err(VerifyError::ObjectNotFound)
    );
    let deleted = sdk_object(13, 9);
    assert_eq!(
        verify(reference(&deleted), &deleted),
        Err(VerifyError::ObjectNotFound)
    );
}

#[test]
fn objects_are_checked_one_by_one() {
    let first = sdk_object(1, 3);
    let second = sdk_object(2, 3);
    let changed = vec![reference(&first), reference(&second)];
    assert_eq!(
        verify_object(&changed, &reference(&second), &object(&second)),
        Ok(())
    );
    assert_eq!(
        verify_object(&changed, &reference(&second), &object(&first)),
        Err(VerifyError::ObjectReferenceMismatch)
    );
    assert_eq!(
        verify_object(&vec![], &reference(&second), &object(&second)),
        Err(VerifyError::ObjectNotFound)
    );
}

#[test]
fn committee_target_holds() {
    let next = keys(100);
    let ledger = ledger_of_epoch(5, Some(&next));
    let verify = |expected: Committee| {
        verify_proof(
            &ledger.committee(),
            &Proof {
                targets: ProofTargets::new().set_committee(expected),
                checkpoint_summary: ledger.checkpoint_summary(),
                contents_proof: None,
            },
        )
    };
    assert_eq!(verify(committee(6, &next)), Ok(()));
    assert_eq!(
        verify(committee(5, &next)),
        Err(VerifyError::CommitteeMismatch)
    );
    assert_eq!(
        verify(committee(6, &ledger.keys)),
        Err(VerifyError::CommitteeMismatch)
    );
}

#[test]
fn committee_target_needs_the_end_of_an_epoch() {
    let ledger = ledger();
    let targets = ProofTargets::new().set_committee(committee(6, &keys(100)));
    assert_eq!(
        verify_committee_target(&ledger.checkpoint_summary(), &targets),
        Err(VerifyError::NoEndOfEpochCommittee)
    );
    assert_eq!(
        verify_committee_target(&ledger.checkpoint_summary(), &ProofTargets::new()),
        Ok(())
    );
}

#[test]
fn last_epoch_has_no_next_committee() {
    let next = keys(100);
    let ledger = ledger_of_epoch(u64::MAX, Some(&next));
    let targets = ProofTargets::new().set_committee(committee(0, &next));
    assert_eq!(
        verify_committee_target(&ledger.checkpoint_summary(), &targets),
        Err(VerifyError::NextEpochOverflow)
    );
}

#[test]
fn checks_come_in_order() {
    // Everything is wrong with this proof.
    let ledger = ledger();
    let mut proof = ledger.proof_of(
        ProofTargets::new()
            .set_committee(committee(6, &keys(100)))
            .add_event(ledger.event_id(7), event(&sdk_event(21)))
            .add_object(reference(&sdk_object(1, 1)), object(&sdk_object(2, 1))),
    );
    proof.contents_proof.as_mut().unwrap().transaction = signed(&ledger.other_transaction);
    let certification = Err(CertificationError::Signature);
    assert_eq!(
        judge_proof(certification, &proof),
        Err(VerifyError::Certification(CertificationError::Signature))
    );
    assert_eq!(
        judge_proof(Ok(()), &proof),
        Err(VerifyError::NoEndOfEpochCommittee)
    );
    proof.targets.committee = None;
    let evidence = proof.contents_proof.take();
    assert_eq!(
        judge_proof(Ok(()), &proof),
        Err(VerifyError::ContentsProofMissing)
    );
    proof.contents_proof = evidence;
    assert_eq!(
        judge_proof(Ok(()), &proof),
        Err(VerifyError::TransactionDigestMismatch)
    );
    proof.contents_proof.as_mut().unwrap().transaction = signed(&ledger.transaction);
    assert_eq!(
        judge_proof(Ok(()), &proof),
        Err(VerifyError::EventOutOfBounds)
    );
    proof.targets.events.clear();
    assert_eq!(
        judge_proof(Ok(()), &proof),
        Err(VerifyError::ObjectReferenceMismatch)
    );
    proof.targets.objects.clear();
    assert_eq!(judge_proof(Ok(()), &proof), Ok(()));
}

// Proofs built from what a node serves.

#[test]
fn builds_and_verifies_transaction_proof() {
    let ledger = ledger();
    let proof = transaction_proof_from_responses(
        &ledger.transaction.digest().into_bytes(),
        &ledger.executed_transaction(),
        &ledger.checkpoint_response(),
    )
    .unwrap();
    assert_eq!(proof.checkpoint_summary.epoch(), 5);
    assert!(proof.targets.objects.is_empty());
    assert!(proof.targets.events.is_empty());
    assert!(proof.targets.committee.is_none());
    let evidence = proof.contents_proof.as_ref().unwrap();
    assert_eq!(
        *evidence.transaction.digest(),
        ledger.transaction.digest().into_bytes()
    );
    assert_eq!(evidence.events.as_ref().unwrap().events().len(), 2);
    assert_eq!(verify_proof(&ledger.committee(), &proof), Ok(()));
}

#[test]
fn honest_proof_holds_in_both_trust_modes() {
    let ledger = ledger();
    let proof = transaction_proof_from_responses(
        &ledger.transaction.digest().into_bytes(),
        &ledger.executed_transaction(),
        &ledger.checkpoint_response(),
    )
    .unwrap();
    let epoch = proof.checkpoint_summary.epoch();

    let served = CommitteeMessage {
        epoch: Some(epoch),
        members: Some(
            ledger
                .keys
                .iter()
                .map(|key| MemberMessage {
                    public_key: Some(key.public_key().into_bytes().to_vec()),
                    weight: Some(2500),
                })
                .collect(),
        ),
    };
    let fetched = committee_from_response(epoch, &Some(served)).unwrap();
    assert_eq!(verify_proof(&fetched, &proof), Ok(()));

    let anchor = keys(100);
    let (summary, signature) = certify(
        &anchor,
        &sdk_summary(4, &ledger.contents, Some(&ledger.keys)),
    );
    let closing = CheckpointResponse {
        summary: message(summary),
        signature: message(signature),
        contents: None,
    };
    let walked = CommitteeWalk::start(committee(4, &anchor), epoch, epoch)
        .ok()
        .unwrap()
        .advance(77, &closing)
        .ok()
        .unwrap();
    assert_eq!(walked.pending_epoch(), None);
    assert_eq!(verify_proof(&walked.into_committee(), &proof), Ok(()));
}

#[test]
fn reply_for_another_transaction_is_refused() {
    // The node serves a transaction of the same certified checkpoint, complete
    // and consistent, but not the one that was asked for.
    let ledger = ledger();
    let asked = ledger.transaction.digest().into_bytes();
    let served = ledger.other_transaction.digest().into_bytes();
    let mut executed = ledger.executed_transaction();
    executed.transaction = message(bcs(&ledger.other_transaction));
    executed.effects = message(bcs(&ledger.other_effects));
    assert_eq!(
        transaction_proof_from_responses(&asked, &executed, &ledger.checkpoint_response())
            .unwrap_err(),
        ResponseError::OtherTransaction { asked, served }
    );
    assert!(
        transaction_proof_from_responses(&served, &executed, &ledger.checkpoint_response()).is_ok()
    );
    // What is missing is reported before that.
    executed.signatures = None;
    assert_eq!(
        transaction_proof_from_responses(&asked, &executed, &ledger.checkpoint_response())
            .unwrap_err(),
        ResponseError::NoSignatures
    );
}

#[test]
fn events_are_left_out_where_there_are_none() {
    let ledger = ledger();
    let mut executed = ledger.executed_transaction();
    executed.transaction = message(bcs(&ledger.other_transaction));
    executed.effects = message(bcs(&ledger.other_effects));
    let proof = transaction_proof_from_responses(
        &ledger.other_transaction.digest().into_bytes(),
        &executed,
        &ledger.checkpoint_response(),
    )
    .unwrap();
    assert!(proof.contents_proof.as_ref().unwrap().events.is_none());
    assert_eq!(verify_proof(&ledger.committee(), &proof), Ok(()));
}

#[test]
fn incomplete_checkpoint_responses_are_refused() {
    let ledger = ledger();
    let empty = || Some(Message { bcs: None });
    let junk = || message(vec![255; 3]);
    let summary_with = |summary: Option<Message>, signature: Option<Message>| {
        checkpoint_summary_from_response(&CheckpointResponse {
            summary,
            signature,
            contents: None,
        })
        .map(|_| ())
    };
    let summary = || message(ledger.summary.clone());
    let signature = || message(ledger.signature.clone());
    assert_eq!(summary_with(summary(), signature()), Ok(()));
    for (summary, signature) in [
        (None, signature()),
        (empty(), signature()),
        (junk(), signature()),
        (summary(), None),
        (summary(), empty()),
        (summary(), junk()),
    ] {
        assert_eq!(
            summary_with(summary, signature),
            Err(ResponseError::NoSignedSummary)
        );
    }
    let contents_with = |contents: Option<Message>| {
        checkpoint_contents_from_response(&CheckpointResponse {
            summary: None,
            signature: None,
            contents,
        })
        .map(|contents| *contents.digest())
    };
    assert_eq!(
        contents_with(message(bcs(&ledger.contents))),
        Ok(ledger.contents.digest().into_bytes())
    );
    assert_eq!(contents_with(None), Err(ResponseError::NoContents));
    assert_eq!(contents_with(empty()), Err(ResponseError::Contents));
    assert_eq!(contents_with(junk()), Err(ResponseError::Contents));
}

#[test]
fn incomplete_transaction_responses_are_refused() {
    let ledger = ledger();
    let empty = || Some(Message { bcs: None });
    let junk = || message(vec![255; 3]);
    let mut executed = ledger.executed_transaction();
    assert_eq!(
        *transaction_from_response(&executed).unwrap().signatures(),
        vec![bcs(&sdk_signature())]
    );
    executed.signatures = Some(vec![Message { bcs: None }]);
    assert_eq!(
        transaction_from_response(&executed).unwrap_err(),
        ResponseError::Signatures
    );
    executed.signatures = Some(vec![Message {
        bcs: Some(vec![255; 3]),
    }]);
    assert_eq!(
        transaction_from_response(&executed).unwrap_err(),
        ResponseError::Signatures
    );
    executed.signatures = None;
    assert_eq!(
        transaction_from_response(&executed).unwrap_err(),
        ResponseError::NoSignatures
    );
    executed.transaction = junk();
    assert_eq!(
        transaction_from_response(&executed).unwrap_err(),
        ResponseError::TransactionData
    );
    executed.transaction = empty();
    assert_eq!(
        transaction_from_response(&executed).unwrap_err(),
        ResponseError::TransactionData
    );
    executed.transaction = None;
    assert_eq!(
        transaction_from_response(&executed).unwrap_err(),
        ResponseError::NoTransactionData
    );
    assert_eq!(
        effects_from_response(&executed)
            .unwrap()
            .execution_digests()
            .effects,
        ledger.effects.digest().into_bytes()
    );
    executed.effects = junk();
    assert_eq!(
        effects_from_response(&executed).unwrap_err(),
        ResponseError::Effects
    );
    executed.effects = empty();
    assert_eq!(
        effects_from_response(&executed).unwrap_err(),
        ResponseError::Effects
    );
    executed.effects = None;
    assert_eq!(
        effects_from_response(&executed).unwrap_err(),
        ResponseError::NoEffects
    );
}

#[test]
fn incomplete_events_are_refused() {
    let ledger = ledger();
    let effects = TransactionEffects::from_bcs(bcs(&ledger.effects)).unwrap();
    let mut executed = ledger.executed_transaction();
    assert_eq!(
        *events_from_response_if_present(&executed, &effects)
            .unwrap()
            .unwrap()
            .digest(),
        ledger.events.digest().into_bytes()
    );
    executed.events = Some(EventsMessage {
        events: Some(vec![
            Message {
                bcs: Some(event_bcs(&sdk_event(21))),
            },
            Message { bcs: None },
        ]),
    });
    assert_eq!(
        events_from_response_if_present(&executed, &effects).unwrap_err(),
        ResponseError::Events
    );
    executed.events = Some(EventsMessage {
        events: Some(vec![Message {
            bcs: Some(vec![255; 3]),
        }]),
    });
    assert_eq!(
        events_from_response_if_present(&executed, &effects).unwrap_err(),
        ResponseError::Events
    );
    executed.events = Some(EventsMessage { events: None });
    assert_eq!(
        events_from_response_if_present(&executed, &effects).unwrap_err(),
        ResponseError::Events
    );
    executed.events = None;
    assert_eq!(
        events_from_response_if_present(&executed, &effects).unwrap_err(),
        ResponseError::NoEvents
    );
    let silent = TransactionEffects::from_bcs(bcs(&ledger.other_effects)).unwrap();
    assert!(events_from_response_if_present(&executed, &silent)
        .unwrap()
        .is_none());
}

#[test]
fn first_missing_part_is_reported() {
    let ledger = ledger();
    let mut executed = ExecutedTransaction {
        transaction: None,
        signatures: None,
        effects: None,
        events: None,
        checkpoint: None,
    };
    let mut checkpoint = CheckpointResponse {
        summary: None,
        signature: None,
        contents: None,
    };
    let build = |executed: &ExecutedTransaction, checkpoint: &CheckpointResponse| {
        transaction_proof_from_responses(
            &ledger.transaction.digest().into_bytes(),
            executed,
            checkpoint,
        )
        .map(|_| ())
    };
    assert_eq!(build(&executed, &checkpoint), Err(ResponseError::NoEffects));
    executed.effects = ledger.executed_transaction().effects;
    assert_eq!(build(&executed, &checkpoint), Err(ResponseError::NoEvents));
    executed.events = ledger.executed_transaction().events;
    assert_eq!(
        build(&executed, &checkpoint),
        Err(ResponseError::NoSignedSummary)
    );
    checkpoint.summary = ledger.checkpoint_response().summary;
    checkpoint.signature = ledger.checkpoint_response().signature;
    assert_eq!(build(&executed, &checkpoint), Err(ResponseError::NoContents));
    checkpoint.contents = ledger.checkpoint_response().contents;
    assert_eq!(
        build(&executed, &checkpoint),
        Err(ResponseError::NoTransactionData)
    );
    executed.transaction = ledger.executed_transaction().transaction;
    assert_eq!(
        build(&executed, &checkpoint),
        Err(ResponseError::NoSignatures)
    );
    executed.signatures = ledger.executed_transaction().signatures;
    assert_eq!(build(&executed, &checkpoint), Ok(()));
}

#[test]
fn first_transaction_of_the_reply_is_taken() {
    let ledger = ledger();
    let digest = ledger.transaction.digest().into_bytes();
    let mut second = ledger.executed_transaction();
    second.checkpoint = Some(78);
    let taken =
        executed_transaction_from_response(&digest, vec![ledger.executed_transaction(), second])
            .unwrap();
    assert_eq!(checkpoint_sequence_from_response(&digest, &taken), Ok(77));
    assert_eq!(
        executed_transaction_from_response(&digest, vec![]).unwrap_err(),
        ResponseError::NoTransaction { digest }
    );
    let mut pending = ledger.executed_transaction();
    pending.checkpoint = None;
    assert_eq!(
        checkpoint_sequence_from_response(&digest, &pending),
        Err(ResponseError::NoCheckpointSequence { digest })
    );
}
