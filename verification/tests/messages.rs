//! What the user is told.

use iota_lite_poc::checkpoint::CertifiedCheckpointSummary;
use iota_lite_poc::cli::{
    created_proof_report, fetched_committee_report, parse_transaction_digest,
    verified_proof_report, walked_committee_report,
};
use iota_lite_poc::committee::Committee;
use iota_lite_poc::error::{CertificationError, ResponseError, VerifyError, WalkError};
use iota_lite_poc::text::decimal_text;

use iota_sdk_grpc_types::v1::bcs::BcsData;
use iota_sdk_grpc_types::v1::versioned::{
    VersionedCheckpointSummary, VersionedValidatorAggregatedSignature,
};

#[test]
fn numbers_are_written_in_decimal() {
    assert_eq!(decimal_text(0), "0");
    assert_eq!(decimal_text(9), "9");
    assert_eq!(decimal_text(10), "10");
    assert_eq!(decimal_text(1_234_567_890), "1234567890");
    assert_eq!(decimal_text(u64::MAX as u128), "18446744073709551615");
    assert_eq!(
        decimal_text(u128::MAX),
        "340282366920938463463374607431768211455"
    );
}

#[test]
fn verification_failures_are_told() {
    for (error, text) in [
        (
            VerifyError::NoEndOfEpochCommittee,
            "no end-of-epoch committee in checkpoint summary",
        ),
        (VerifyError::NextEpochOverflow, "next epoch overflows u64"),
        (
            VerifyError::CommitteeMismatch,
            "given committee does not match the end-of-epoch committee",
        ),
        (
            VerifyError::ContentsProofMissing,
            "contents proof is missing",
        ),
        (
            VerifyError::TransactionDigestMismatch,
            "transaction digest does not match the execution digest",
        ),
        (
            VerifyError::TransactionNotInCheckpoint,
            "transaction digest not found in the checkpoint contents",
        ),
        (
            VerifyError::EventsDigestMismatch,
            "events digest does not match the execution digest",
        ),
        (VerifyError::EventsMissing, "events digest is missing"),
        (
            VerifyError::EventOfOtherTransaction,
            "event does not belong to the transaction",
        ),
        (
            VerifyError::EventOutOfBounds,
            "event sequence number out of bounds",
        ),
        (VerifyError::EventMismatch, "event contents do not match"),
        (
            VerifyError::ObjectReferenceMismatch,
            "object reference does not match the object",
        ),
        (VerifyError::ObjectNotFound, "object not found"),
        (
            VerifyError::Certification(CertificationError::CommitteeEpoch {
                committee: 12,
                signature: 7,
            }),
            "committee of epoch 12 cannot verify a signature of epoch 7",
        ),
        (
            VerifyError::Certification(CertificationError::SummaryEpoch {
                summary: 3,
                signature: 10,
            }),
            "checkpoint summary of epoch 3 carries a signature of epoch 10",
        ),
        (
            VerifyError::Certification(CertificationError::Signature),
            "checkpoint summary is not signed by a quorum",
        ),
        (
            VerifyError::Certification(CertificationError::ContentsDigest),
            "checkpoint contents digest does not match the summary",
        ),
    ] {
        assert_eq!(error.message(), text);
    }
}

#[test]
fn incomplete_replies_are_told() {
    let digest = [0u8; 32];
    for (error, text) in [
        (
            ResponseError::NoTransaction { digest },
            "gRPC returned no transaction for 11111111111111111111111111111111",
        ),
        (
            ResponseError::NoCheckpointSequence { digest },
            "transaction 11111111111111111111111111111111 response is missing checkpoint sequence",
        ),
        (
            ResponseError::OtherTransaction {
                asked: digest,
                served: {
                    let mut served = digest;
                    served[31] = 1;
                    served
                },
            },
            "gRPC returned transaction 11111111111111111111111111111112 for 11111111111111111111111111111111",
        ),
        (
            ResponseError::NoSignedSummary,
            "checkpoint response is missing signed summary",
        ),
        (
            ResponseError::NoContents,
            "checkpoint response is missing contents BCS",
        ),
        (
            ResponseError::Contents,
            "failed to deserialize checkpoint contents",
        ),
        (
            ResponseError::NoTransactionData,
            "transaction response is missing transaction BCS",
        ),
        (
            ResponseError::TransactionData,
            "failed to deserialize transaction BCS",
        ),
        (
            ResponseError::NoSignatures,
            "transaction response is missing signatures",
        ),
        (
            ResponseError::Signatures,
            "failed to deserialize transaction signatures",
        ),
        (
            ResponseError::NoEffects,
            "transaction response is missing effects BCS",
        ),
        (
            ResponseError::Effects,
            "failed to deserialize transaction effects",
        ),
        (
            ResponseError::NoEvents,
            "transaction effects refer to events but event data is missing",
        ),
        (
            ResponseError::Events,
            "failed to deserialize transaction events",
        ),
        (
            ResponseError::NoCurrentEpoch,
            "service info response is missing current epoch",
        ),
        (
            ResponseError::NoLastCheckpoint { epoch: 42 },
            "epoch 42 response is missing last checkpoint",
        ),
        (
            ResponseError::NoCommittee { epoch: 42 },
            "epoch 42 response is missing committee",
        ),
    ] {
        assert_eq!(error.message(), text);
    }
}

#[test]
fn stopped_walks_are_told() {
    for (error, text) in [
        (
            WalkError::TargetBeforeTrusted {
                target: 1,
                trusted: 2,
            },
            "target epoch 1 is before trusted committee epoch 2",
        ),
        (
            WalkError::TargetAheadOfNode {
                target: 30,
                node: 21,
            },
            "target epoch 30 is ahead of node current epoch 21",
        ),
        (
            WalkError::Response(ResponseError::NoSignedSummary),
            "checkpoint response is missing signed summary",
        ),
        (
            WalkError::Transition {
                epoch: 3,
                checkpoint: 4567,
                error: CertificationError::Signature,
            },
            "failed to verify epoch 3 transition checkpoint 4567",
        ),
        (
            WalkError::NotEndOfEpoch { checkpoint: 4567 },
            "checkpoint 4567 is not an end-of-epoch checkpoint",
        ),
        (WalkError::NextEpochOverflow, "next epoch overflows u64"),
    ] {
        assert_eq!(error.message(), text);
    }
}

#[test]
fn transaction_digests_are_read() {
    let text = iota_sdk_types::Digest::new([77; 32]).to_base58();
    assert_eq!(parse_transaction_digest(&text), Ok([77; 32]));
    assert_eq!(
        parse_transaction_digest("0x12"),
        Err("failed to parse transaction digest 0x12".to_string())
    );
    assert_eq!(
        parse_transaction_digest("111"),
        Err("failed to parse transaction digest 111".to_string())
    );
}

fn sdk_summary() -> iota_sdk_types::CheckpointSummary {
    iota_sdk_types::CheckpointSummary {
        epoch: 12,
        sequence_number: 345,
        network_total_transactions: 1000,
        contents_digest: iota_sdk_types::CheckpointContentsDigest::new([9; 32]),
        previous_digest: None,
        epoch_rolling_gas_cost_summary: iota_sdk_types::GasCostSummary {
            computation_cost: 0,
            computation_cost_burned: 0,
            storage_cost: 0,
            storage_rebate: 0,
            non_refundable_storage_fee: 0,
        },
        timestamp_ms: 1,
        checkpoint_commitments: vec![],
        end_of_epoch_data: None,
        version_specific_data: vec![],
    }
}

fn summary() -> CertifiedCheckpointSummary {
    let signature = iota_sdk_types::ValidatorAggregatedSignature::new(
        12,
        iota_sdk_types::Bls12381Signature::new([0; 48]),
        [0u32],
    );
    CertifiedCheckpointSummary::from_bcs(
        BcsData::serialize(&VersionedCheckpointSummary::V1(sdk_summary()))
            .unwrap()
            .into(),
        BcsData::serialize(&VersionedValidatorAggregatedSignature::V1(signature))
            .unwrap()
            .into(),
    )
    .unwrap()
}

#[test]
fn proofs_are_reported() {
    let digest = sdk_summary().digest().to_base58();
    assert_eq!(
        created_proof_report("proof.json", &summary()),
        format!(
            "created proof proof.json\ncheckpoint: {digest}\ncheckpoint sequence number: 345\nepoch: 12"
        )
    );
    let committee = Committee::new(12, &vec![([1; 96], 10)]);
    assert_eq!(
        verified_proof_report("proof.json", &summary(), &committee),
        format!(
            "verified proof proof.json\ncheckpoint: {digest}\ncheckpoint sequence number: 345\nepoch: 12\ncommittee epoch: 12"
        )
    );
}

#[test]
fn committees_are_reported() {
    let committee = Committee::new(8, &vec![([1; 96], 10), ([2; 96], 9990)]);
    assert_eq!(
        fetched_committee_report("out.json", &committee),
        "fetched committee out.json\nepoch: 8\nvoting rights: 10000"
    );
    assert_eq!(
        walked_committee_report("out.json", 3, &committee),
        "verified committee out.json\ntrusted epoch: 3\ntarget epoch: 8\nvoting rights: 10000"
    );
}
