//! Committee walks over real, BLS-signed transition checkpoints.

use iota_lite_poc::checkpoint::CertifiedCheckpointSummary;
use iota_lite_poc::committee::Committee;
use iota_lite_poc::error::{CertificationError, ResponseError, WalkError};
use iota_lite_poc::response::{
    committee_from_response, current_epoch_from_response, last_checkpoint_from_response,
    CheckpointResponse, CommitteeMessage, MemberMessage, Message,
};
use iota_lite_poc::walk::{
    ensure_target_epoch_is_reachable, judge_transition, next_committee_from_end_of_epoch_summary,
    next_verified_committee, CommitteeWalk,
};
use iota_lite_poc::{verify_proof, Proof, ProofTargets};

use iota_sdk_crypto::bls12381::Bls12381PrivateKey;
use iota_sdk_crypto::validator::ValidatorCommitteeSignatureAggregator;
use iota_sdk_grpc_types::v1::bcs::BcsData;
use iota_sdk_grpc_types::v1::versioned::{
    VersionedCheckpointSummary, VersionedValidatorAggregatedSignature,
};

fn keys(seed: u8) -> Vec<Bls12381PrivateKey> {
    let mut keys: Vec<Bls12381PrivateKey> = (1..=3u8)
        .map(|i| Bls12381PrivateKey::new([seed + i; 32]).unwrap())
        .collect();
    keys.sort_by_key(|key| key.public_key().into_bytes());
    keys
}

fn members(keys: &[Bls12381PrivateKey]) -> Vec<iota_sdk_types::ValidatorCommitteeMember> {
    keys.iter()
        .map(|key| iota_sdk_types::ValidatorCommitteeMember {
            public_key: key.public_key(),
            stake: 1,
        })
        .collect()
}

fn committee(epoch: u64, keys: &[Bls12381PrivateKey]) -> Committee {
    let rights: Vec<([u8; 96], u64)> = keys
        .iter()
        .map(|key| (key.public_key().into_bytes(), 1))
        .collect();
    Committee::new(epoch, &rights)
}

/// A checkpoint of `epoch` that `signers` certified and that names `next`.
fn checkpoint(
    epoch: u64,
    signers: &[Bls12381PrivateKey],
    next: Option<&[Bls12381PrivateKey]>,
) -> CheckpointResponse {
    let summary = iota_sdk_types::CheckpointSummary {
        epoch,
        sequence_number: 10 * epoch,
        network_total_transactions: 1000,
        contents_digest: iota_sdk_types::CheckpointContentsDigest::new([9; 32]),
        previous_digest: None,
        epoch_rolling_gas_cost_summary: iota_sdk_types::GasCostSummary {
            computation_cost: 0,
            computation_cost_burned: 0,
            storage_cost: 0,
            storage_rebate: 0,
            non_refundable_storage_fee: 0,
        },
        timestamp_ms: 1,
        checkpoint_commitments: vec![],
        end_of_epoch_data: next.map(|keys| iota_sdk_types::EndOfEpochData {
            next_epoch_committee: members(keys),
            next_epoch_protocol_version: 1,
            epoch_commitments: vec![],
            epoch_supply_change: 0,
        }),
        version_specific_data: vec![],
    };
    let committee = iota_sdk_types::ValidatorCommittee {
        epoch,
        members: members(signers),
    };
    let mut aggregator =
        ValidatorCommitteeSignatureAggregator::new_checkpoint_summary(committee, &summary).unwrap();
    for key in signers {
        aggregator
            .add_signature(key.sign_checkpoint_summary(&summary))
            .unwrap();
    }
    let signature = aggregator.finish().unwrap();
    CheckpointResponse {
        summary: Some(Message {
            bcs: Some(
                BcsData::serialize(&VersionedCheckpointSummary::V1(summary))
                    .unwrap()
                    .into(),
            ),
        }),
        signature: Some(Message {
            bcs: Some(
                BcsData::serialize(&VersionedValidatorAggregatedSignature::V1(signature))
                    .unwrap()
                    .into(),
            ),
        }),
        contents: None,
    }
}

fn decoded(checkpoint: &CheckpointResponse) -> CertifiedCheckpointSummary {
    CertifiedCheckpointSummary::from_bcs(
        checkpoint.summary.as_ref().unwrap().bcs.clone().unwrap(),
        checkpoint.signature.as_ref().unwrap().bcs.clone().unwrap(),
    )
    .unwrap()
}

#[test]
fn target_epoch_must_be_reachable() {
    assert_eq!(ensure_target_epoch_is_reachable(3, 3, 3), Ok(()));
    assert_eq!(ensure_target_epoch_is_reachable(3, 5, 9), Ok(()));
    assert_eq!(
        ensure_target_epoch_is_reachable(3, 2, 9),
        Err(WalkError::TargetBeforeTrusted {
            target: 2,
            trusted: 3
        })
    );
    assert_eq!(
        ensure_target_epoch_is_reachable(3, 10, 9),
        Err(WalkError::TargetAheadOfNode {
            target: 10,
            node: 9
        })
    );
    assert_eq!(
        ensure_target_epoch_is_reachable(3, 2, 1),
        Err(WalkError::TargetBeforeTrusted {
            target: 2,
            trusted: 3
        })
    );
}

#[test]
fn walks_from_a_trusted_committee() {
    let committees = [keys(0), keys(50), keys(100), keys(30)];
    let mut walk = CommitteeWalk::start(committee(0, &committees[0]), 3, 7)
        .ok()
        .unwrap();
    for epoch in 0..3usize {
        assert_eq!(walk.pending_epoch(), Some(epoch as u64));
        let checkpoint = checkpoint(
            epoch as u64,
            &committees[epoch],
            Some(&committees[epoch + 1]),
        );
        walk = walk.advance(10 * epoch as u64, &checkpoint).ok().unwrap();
    }
    assert_eq!(walk.pending_epoch(), None);
    let reached = walk.into_committee();
    assert_eq!(reached, committee(3, &committees[3]));
    assert_eq!(reached.epoch(), 3);
}

#[test]
fn walk_can_be_resumed() {
    let committees = [keys(0), keys(50), keys(100)];
    let first = CommitteeWalk::start(committee(4, &committees[0]), 5, 6)
        .ok()
        .unwrap()
        .advance(1, &checkpoint(4, &committees[0], Some(&committees[1])))
        .ok()
        .unwrap()
        .into_committee();
    let second = CommitteeWalk::start(first, 6, 6)
        .ok()
        .unwrap()
        .advance(2, &checkpoint(5, &committees[1], Some(&committees[2])))
        .ok()
        .unwrap()
        .into_committee();
    assert_eq!(second, committee(6, &committees[2]));
}

#[test]
fn walk_to_the_trusted_epoch_stays() {
    let walk = CommitteeWalk::start(committee(4, &keys(0)), 4, 4).ok().unwrap();
    assert_eq!(walk.pending_epoch(), None);
    assert_eq!(walk.into_committee(), committee(4, &keys(0)));
}

#[test]
fn unreachable_walk_does_not_start() {
    assert_eq!(
        CommitteeWalk::start(committee(4, &keys(0)), 3, 9).err(),
        Some(WalkError::TargetBeforeTrusted {
            target: 3,
            trusted: 4
        })
    );
    assert_eq!(
        CommitteeWalk::start(committee(4, &keys(0)), 10, 9).err(),
        Some(WalkError::TargetAheadOfNode {
            target: 10,
            node: 9
        })
    );
}

#[test]
fn forged_transition_is_rejected() {
    let forged = checkpoint(4, &keys(50), Some(&keys(50)));
    assert_eq!(
        next_verified_committee(&committee(4, &keys(0)), &forged, 40).unwrap_err(),
        WalkError::Transition {
            epoch: 4,
            checkpoint: 40,
            error: CertificationError::Signature
        }
    );
    let walk = CommitteeWalk::start(committee(4, &keys(0)), 5, 5).ok().unwrap();
    assert_eq!(
        walk.advance(40, &forged).err(),
        Some(WalkError::Transition {
            epoch: 4,
            checkpoint: 40,
            error: CertificationError::Signature
        })
    );
}

#[test]
fn transition_of_another_epoch_is_rejected() {
    let skipped = checkpoint(5, &keys(0), Some(&keys(50)));
    assert_eq!(
        next_verified_committee(&committee(4, &keys(0)), &skipped, 50).unwrap_err(),
        WalkError::Transition {
            epoch: 4,
            checkpoint: 50,
            error: CertificationError::CommitteeEpoch {
                committee: 4,
                signature: 5
            }
        }
    );
}

#[test]
fn ordinary_checkpoint_is_no_transition() {
    let ordinary = checkpoint(4, &keys(0), None);
    assert_eq!(
        next_verified_committee(&committee(4, &keys(0)), &ordinary, 33).unwrap_err(),
        WalkError::NotEndOfEpoch { checkpoint: 33 }
    );
}

#[test]
fn last_epoch_has_no_successor() {
    let last = checkpoint_of_last_epoch();
    assert_eq!(
        next_committee_from_end_of_epoch_summary(&decoded(&last), 33).unwrap_err(),
        WalkError::NextEpochOverflow
    );
}

fn checkpoint_of_last_epoch() -> CheckpointResponse {
    let ordinary = checkpoint(1, &keys(0), Some(&keys(50)));
    // The epoch is the first field behind the version tag.
    let mut summary = ordinary.summary.as_ref().unwrap().bcs.clone().unwrap();
    summary[1..9].copy_from_slice(&[255; 8]);
    CheckpointResponse {
        summary: Some(Message { bcs: Some(summary) }),
        signature: ordinary.signature,
        contents: None,
    }
}

#[test]
fn missing_summary_stops_the_walk() {
    let mut response = checkpoint(4, &keys(0), Some(&keys(50)));
    response.signature = None;
    assert_eq!(
        next_verified_committee(&committee(4, &keys(0)), &response, 40).unwrap_err(),
        WalkError::Response(ResponseError::NoSignedSummary)
    );
}

#[test]
fn transitions_are_judged_in_order() {
    let ordinary = decoded(&checkpoint(4, &keys(0), None));
    let closing = decoded(&checkpoint(4, &keys(0), Some(&keys(50))));
    assert_eq!(
        judge_transition(Err(CertificationError::Signature), 4, &ordinary, 7).unwrap_err(),
        WalkError::Transition {
            epoch: 4,
            checkpoint: 7,
            error: CertificationError::Signature
        }
    );
    assert_eq!(
        judge_transition(Ok(()), 4, &ordinary, 7).unwrap_err(),
        WalkError::NotEndOfEpoch { checkpoint: 7 }
    );
    assert_eq!(
        judge_transition(Ok(()), 4, &closing, 7).unwrap(),
        committee(5, &keys(50))
    );
}

#[test]
fn transition_can_be_shown_as_a_proof() {
    let closing = checkpoint(4, &keys(0), Some(&keys(50)));
    let next = next_verified_committee(&committee(4, &keys(0)), &closing, 40).unwrap();
    let shown = Proof {
        targets: ProofTargets::new().set_committee(next),
        checkpoint_summary: decoded(&closing),
        contents_proof: None,
    };
    assert_eq!(verify_proof(&committee(4, &keys(0)), &shown), Ok(()));
}

#[test]
fn node_tells_its_epoch() {
    assert_eq!(current_epoch_from_response(Some(6)), Ok(6));
    assert_eq!(
        current_epoch_from_response(None),
        Err(ResponseError::NoCurrentEpoch)
    );
    assert_eq!(last_checkpoint_from_response(6, Some(60)), Ok(60));
    assert_eq!(
        last_checkpoint_from_response(6, None),
        Err(ResponseError::NoLastCheckpoint { epoch: 6 })
    );
}

fn served(epoch: Option<u64>, members: Option<Vec<(Option<Vec<u8>>, Option<u64>)>>) -> Option<CommitteeMessage> {
    Some(CommitteeMessage {
        epoch,
        members: members.map(|members| {
            members
                .into_iter()
                .map(|(public_key, weight)| MemberMessage { public_key, weight })
                .collect()
        }),
    })
}

#[test]
fn node_serves_a_committee() {
    let taken = committee_from_response(
        0,
        &served(
            Some(3),
            Some(vec![
                (Some(vec![9; 96]), Some(20)),
                (Some(vec![1; 96]), Some(30)),
            ]),
        ),
    )
    .unwrap();
    assert_eq!(taken.epoch(), 3);
    assert_eq!(
        *taken.voting_rights(),
        vec![([1u8; 96], 30u64), ([9u8; 96], 20u64)]
    );
}

#[test]
fn incomplete_committee_is_refused() {
    let missing = ResponseError::NoCommittee { epoch: 3 };
    let complete = || vec![(Some(vec![9u8; 96]), Some(20u64))];
    assert!(committee_from_response(3, &served(Some(3), Some(complete()))).is_ok());
    assert_eq!(committee_from_response(3, &None).unwrap_err(), missing);
    assert_eq!(
        committee_from_response(3, &served(None, Some(complete()))).unwrap_err(),
        missing
    );
    assert_eq!(
        committee_from_response(3, &served(Some(3), None)).unwrap_err(),
        missing
    );
    for member in [
        (None, Some(1)),
        (Some(vec![1u8; 96]), None),
        (Some(vec![1u8; 95]), Some(1)),
        (Some(vec![1u8; 97]), Some(1)),
    ] {
        let mut members = complete();
        members.push(member);
        assert_eq!(
            committee_from_response(3, &served(Some(3), Some(members))).unwrap_err(),
            missing
        );
    }
}

#[test]
fn order_of_the_next_committee_does_not_matter() {
    let mut next = keys(50);
    let one = checkpoint(4, &keys(0), Some(&next));
    next.reverse();
    let other = checkpoint(4, &keys(0), Some(&next));
    assert_ne!(decoded(&one).bcs(), decoded(&other).bcs());
    assert_eq!(
        next_verified_committee(&committee(4, &keys(0)), &one, 40).unwrap(),
        next_verified_committee(&committee(4, &keys(0)), &other, 40).unwrap()
    );
}
