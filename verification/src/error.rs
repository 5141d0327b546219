//! What can be wrong with a proof or with the data it is built from.

use vstd::prelude::*;
use vstd::string::*;

use crate::bytes::Digest;
use crate::committee::EpochId;
use crate::sdk;
use crate::sdk::digest_to_base58;
use crate::text::{decimal, decimal_text};

verus! {

/// The part of the chain data that could not be decoded.
#[derive(Clone, Copy, Debug, PartialEq, Eq, Structural)]
pub enum DecodeError {
    Summary,
    ValidatorSignature,
    Contents,
    Transaction,
    UserSignature,
    Effects,
    Events,
    Object,
}

/// Why a checkpoint summary is not certified by a committee.
#[derive(Clone, Copy, Debug, PartialEq, Eq, Structural)]
pub enum CertificationError {
    /// The signature is of another epoch than the summary.
    SummaryEpoch { summary: u64, signature: u64 },
    /// The signature is of another epoch than the committee.
    CommitteeEpoch { committee: u64, signature: u64 },
    /// The signature is not one of a quorum of the committee on the summary.
    Signature,
    /// The checkpoint contents are not those that the summary commits to.
    ContentsDigest,
}

/// Why a proof does not hold.
#[derive(Clone, Copy, Debug, PartialEq, Eq, Structural)]
pub enum VerifyError {
    /// The checkpoint is not certified.
    Certification(CertificationError),
    /// A committee is to be proved by a checkpoint that names none.
    NoEndOfEpochCommittee,
    /// The epoch after that of the checkpoint has no number.
    NextEpochOverflow,
    /// The checkpoint names another committee than the one to be proved.
    CommitteeMismatch,
    /// Objects or events are to be proved without a transaction.
    ContentsProofMissing,
    /// The effects are of another transaction.
    TransactionDigestMismatch,
    /// The checkpoint does not list the execution.
    TransactionNotInCheckpoint,
    /// The effects are of an execution with other events.
    EventsDigestMismatch,
    /// Events are to be proved without the events of the transaction.
    EventsMissing,
    /// The event to be proved is of another transaction.
    EventOfOtherTransaction,
    /// The transaction emitted fewer events.
    EventOutOfBounds,
    /// The transaction emitted another event at this place.
    EventMismatch,
    /// The reference to be proved is not that of the object.
    ObjectReferenceMismatch,
    /// The transaction did not write the object.
    ObjectNotFound,
}

/// What a node's reply lacks.
#[derive(Clone, Copy, Debug, PartialEq, Eq)]
pub enum ResponseError {
    NoTransaction { digest: Digest },
    NoCheckpointSequence { digest: Digest },
    OtherTransaction { asked: Digest, served: Digest },
    NoSignedSummary,
    NoContents,
    Contents,
    NoTransactionData,
    TransactionData,
    NoSignatures,
    Signatures,
    NoEffects,
    Effects,
    NoEvents,
    Events,
    NoCurrentEpoch,
    NoLastCheckpoint { epoch: EpochId },
    NoCommittee { epoch: EpochId },
}

/// Why a committee cannot be reached from a trusted one.
#[derive(Clone, Copy, Debug, PartialEq, Eq)]
pub enum WalkError {
    /// The committee sought is older than the trusted one.
    TargetBeforeTrusted { target: EpochId, trusted: EpochId },
    /// The committee sought is not yet known to the node.
    TargetAheadOfNode { target: EpochId, node: EpochId },
    /// The node did not serve the transition checkpoint.
    Response(ResponseError),
    /// The committee of `epoch` did not certify the checkpoint.
    Transition { epoch: EpochId, checkpoint: u64, error: CertificationError },
    /// The checkpoint names no next committee.
    NotEndOfEpoch { checkpoint: u64 },
    /// The next epoch has no number.
    NextEpochOverflow,
}

/// The text that puts the numeral of `n` between two others.
pub open spec fn with_number(before: Seq<char>, n: u64, after: Seq<char>) -> Seq<char> {
    before + decimal(n as nat) + after
}

/// The text that puts the numerals of `m` and `n` behind two others.
pub open spec fn with_numbers(before: Seq<char>, m: u64, between: Seq<char>, n: u64) -> Seq<char> {
    before + decimal(m as nat) + between + decimal(n as nat)
}

/// The text that puts a digest between two others.
pub open spec fn with_digest(before: Seq<char>, digest: Digest, after: Seq<char>) -> Seq<char> {
    before + digest_to_base58(digest) + after
}

/// The text that puts two digests behind two others.
pub open spec fn with_digests(
    before: Seq<char>,
    first: Digest,
    between: Seq<char>,
    second: Digest,
) -> Seq<char> {
    before + digest_to_base58(first) + between + digest_to_base58(second)
}

fn number_message(before: &str, n: u64, after: &str) -> (text: String)
    ensures
        text@ == with_number(before@, n, after@),
{
    let mut text = before.to_owned();
    text.append(decimal_text(n as u128).as_str());
    text.append(after);
    text
}

fn numbers_message(before: &str, m: u64, between: &str, n: u64) -> (text: String)
    ensures
        text@ == with_numbers(before@, m, between@, n),
{
    let mut text = before.to_owned();
    text.append(decimal_text(m as u128).as_str());
    text.append(between);
    text.append(decimal_text(n as u128).as_str());
    text
}

fn digest_message(before: &str, digest: &Digest, after: &str) -> (text: String)
    ensures
        text@ == with_digest(before@, *digest, after@),
{
    let mut text = before.to_owned();
    text.append(sdk::digest_text(digest).as_str());
    text.append(after);
    text
}

fn digests_message(before: &str, first: &Digest, between: &str, second: &Digest) -> (text: String)
    ensures
        text@ == with_digests(before@, *first, between@, *second),
{
    let mut text = before.to_owned();
    text.append(sdk::digest_text(first).as_str());
    text.append(between);
    text.append(sdk::digest_text(second).as_str());
    text
}

/// What is said of a checkpoint that is not certified.
pub open spec fn certification_text(error: CertificationError) -> Seq<char> {
    match error {
        CertificationError::SummaryEpoch { summary, signature } => with_numbers(
            "checkpoint summary of epoch "@,
            summary,
            " carries a signature of epoch "@,
            signature,
        ),
        CertificationError::CommitteeEpoch { committee, signature } => with_numbers(
            "committee of epoch "@,
            committee,
            " cannot verify a signature of epoch "@,
            signature,
        ),
        CertificationError::Signature => "checkpoint summary is not signed by a quorum"@,
        CertificationError::ContentsDigest =>
            "checkpoint contents digest does not match the summary"@,
    }
}

impl CertificationError {
    /// What to tell the user.
    pub fn message(&self) -> (text: String)
        ensures
            text@ == certification_text(*self),
    {
        match *self {
            CertificationError::SummaryEpoch { summary, signature } => numbers_message(
                "checkpoint summary of epoch ",
                summary,
                " carries a signature of epoch ",
                signature,
            ),
            CertificationError::CommitteeEpoch { committee, signature } => numbers_message(
                "committee of epoch ",
                committee,
                " cannot verify a signature of epoch ",
                signature,
            ),
            CertificationError::Signature =>
                "checkpoint summary is not signed by a quorum".to_owned(),
            CertificationError::ContentsDigest =>
                "checkpoint contents digest does not match the summary".to_owned(),
        }
    }
}

/// What is said of a proof that does not hold.
pub open spec fn verify_text(error: VerifyError) -> Seq<char> {
    match error {
        VerifyError::Certification(error) => certification_text(error),
        VerifyError::NoEndOfEpochCommittee => "no end-of-epoch committee in checkpoint summary"@,
        VerifyError::NextEpochOverflow => "next epoch overflows u64"@,
        VerifyError::CommitteeMismatch =>
            "given committee does not match the end-of-epoch committee"@,
        VerifyError::ContentsProofMissing => "contents proof is missing"@,
        VerifyError::TransactionDigestMismatch =>
            "transaction digest does not match the execution digest"@,
        VerifyError::TransactionNotInCheckpoint =>
            "transaction digest not found in the checkpoint contents"@,
        VerifyError::EventsDigestMismatch => "events digest does not match the execution digest"@,
        VerifyError::EventsMissing => "events digest is missing"@,
        VerifyError::EventOfOtherTransaction => "event does not belong to the transaction"@,
        VerifyError::EventOutOfBounds => "event sequence number out of bounds"@,
        VerifyError::EventMismatch => "event contents do not match"@,
        VerifyError::ObjectReferenceMismatch => "object reference does not match the object"@,
        VerifyError::ObjectNotFound => "object not found"@,
    }
}

impl VerifyError {
    /// What to tell the user.
    pub fn message(&self) -> (text: String)
        ensures
            text@ == verify_text(*self),
    {
        let text = match *self {
            VerifyError::Certification(error) => return error.message(),
            VerifyError::NoEndOfEpochCommittee => "no end-of-epoch committee in checkpoint summary",
            VerifyError::NextEpochOverflow => "next epoch overflows u64",
            VerifyError::CommitteeMismatch =>
                "given committee does not match the end-of-epoch committee",
            VerifyError::ContentsProofMissing => "contents proof is missing",
            VerifyError::TransactionDigestMismatch =>
                "transaction digest does not match the execution digest",
            VerifyError::TransactionNotInCheckpoint =>
                "transaction digest not found in the checkpoint contents",
            VerifyError::EventsDigestMismatch =>
                "events digest does not match the execution digest",
            VerifyError::EventsMissing => "events digest is missing",
            VerifyError::EventOfOtherTransaction => "event does not belong to the transaction",
            VerifyError::EventOutOfBounds => "event sequence number out of bounds",
            VerifyError::EventMismatch => "event contents do not match",
            VerifyError::ObjectReferenceMismatch => "object reference does not match the object",
            VerifyError::ObjectNotFound => "object not found",
        };
        text.to_owned()
    }
}

/// What is said of a reply that lacks something.
pub open spec fn response_text(error: ResponseError) -> Seq<char> {
    match error {
        ResponseError::NoTransaction { digest } => with_digest(
            "gRPC returned no transaction for "@,
            digest,
            ""@,
        ),
        ResponseError::NoCheckpointSequence { digest } => with_digest(
            "transaction "@,
            digest,
            " response is missing checkpoint sequence"@,
        ),
        ResponseError::OtherTransaction { asked, served } => with_digests(
            "gRPC returned transaction "@,
            served,
            " for "@,
            asked,
        ),
        ResponseError::NoSignedSummary => "checkpoint response is missing signed summary"@,
        ResponseError::NoContents => "checkpoint response is missing contents BCS"@,
        ResponseError::Contents => "failed to deserialize checkpoint contents"@,
        ResponseError::NoTransactionData => "transaction response is missing transaction BCS"@,
        ResponseError::TransactionData => "failed to deserialize transaction BCS"@,
        ResponseError::NoSignatures => "transaction response is missing signatures"@,
        ResponseError::Signatures => "failed to deserialize transaction signatures"@,
        ResponseError::NoEffects => "transaction response is missing effects BCS"@,
        ResponseError::Effects => "failed to deserialize transaction effects"@,
        ResponseError::NoEvents =>
            "transaction effects refer to events but event data is missing"@,
        ResponseError::Events => "failed to deserialize transaction events"@,
        ResponseError::NoCurrentEpoch => "service info response is missing current epoch"@,
        ResponseError::NoLastCheckpoint { epoch } => with_number(
            "epoch "@,
            epoch,
            " response is missing last checkpoint"@,
        ),
        ResponseError::NoCommittee { epoch } => with_number(
            "epoch "@,
            epoch,
            " response is missing committee"@,
        ),
    }
}

impl ResponseError {
    /// What to tell the user.
    pub fn message(&self) -> (text: String)
        ensures
            text@ == response_text(*self),
    {
        let text = match *self {
            ResponseError::NoTransaction { digest } => {
                return digest_message("gRPC returned no transaction for ", &digest, "");
            },
            ResponseError::NoCheckpointSequence { digest } => {
                return digest_message(
                    "transaction ",
                    &digest,
                    " response is missing checkpoint sequence",
                );
            },
            ResponseError::OtherTransaction { asked, served } => {
                return digests_message("gRPC returned transaction ", &served, " for ", &asked);
            },
            ResponseError::NoSignedSummary => "checkpoint response is missing signed summary",
            ResponseError::NoContents => "checkpoint response is missing contents BCS",
            ResponseError::Contents => "failed to deserialize checkpoint contents",
            ResponseError::NoTransactionData => "transaction response is missing transaction BCS",
            ResponseError::TransactionData => "failed to deserialize transaction BCS",
            ResponseError::NoSignatures => "transaction response is missing signatures",
            ResponseError::Signatures => "failed to deserialize transaction signatures",
            ResponseError::NoEffects => "transaction response is missing effects BCS",
            ResponseError::Effects => "failed to deserialize transaction effects",
            ResponseError::NoEvents =>
                "transaction effects refer to events but event data is missing",
            ResponseError::Events => "failed to deserialize transaction events",
            ResponseError::NoCurrentEpoch => "service info response is missing current epoch",
            ResponseError::NoLastCheckpoint { epoch } => {
                return number_message("epoch ", epoch, " response is missing last checkpoint");
            },
            ResponseError::NoCommittee { epoch } => {
                return number_message("epoch ", epoch, " response is missing committee");
            },
        };
        text.to_owned()
    }
}

/// What is said of a committee that cannot be reached.
pub open spec fn walk_text(error: WalkError) -> Seq<char> {
    match error {
        WalkError::TargetBeforeTrusted { target, trusted } => with_numbers(
            "target epoch "@,
            target,
            " is before trusted committee epoch "@,
            trusted,
        ),
        WalkError::TargetAheadOfNode { target, node } => with_numbers(
            "target epoch "@,
            target,
            " is ahead of node current epoch "@,
            node,
        ),
        WalkError::Response(error) => response_text(error),
        WalkError::Transition { epoch, checkpoint, .. } => with_numbers(
            "failed to verify epoch "@,
            epoch,
            " transition checkpoint "@,
            checkpoint,
        ),
        WalkError::NotEndOfEpoch { checkpoint } => with_number(
            "checkpoint "@,
            checkpoint,
            " is not an end-of-epoch checkpoint"@,
        ),
        WalkError::NextEpochOverflow => "next epoch overflows u64"@,
    }
}

impl WalkError {
    /// What to tell the user.
    pub fn message(&self) -> (text: String)
        ensures
            text@ == walk_text(*self),
    {
        match *self {
            WalkError::TargetBeforeTrusted { target, trusted } => numbers_message(
                "target epoch ",
                target,
                " is before trusted committee epoch ",
                trusted,
            ),
            WalkError::TargetAheadOfNode { target, node } => numbers_message(
                "target epoch ",
                target,
                " is ahead of node current epoch ",
                node,
            ),
            WalkError::Response(error) => error.message(),
            WalkError::Transition { epoch, checkpoint, .. } => numbers_message(
                "failed to verify epoch ",
                epoch,
                " transition checkpoint ",
                checkpoint,
            ),
            WalkError::NotEndOfEpoch { checkpoint } => number_message(
                "checkpoint ",
                checkpoint,
                " is not an end-of-epoch checkpoint",
            ),
            WalkError::NextEpochOverflow => "next epoch overflows u64".to_owned(),
        }
    }
}

} // verus!
