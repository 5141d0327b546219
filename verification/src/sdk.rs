//! What the IOTA SDK computes on encoded chain data.
//!
//! Chain data travels as BCS, in the form in which the gRPC API serves it. The
//! functions here hand such bytes to the SDK and give back plain values. What
//! the SDK computes has a name each, as a function of the bytes alone; nothing
//! else is known of it.

use vstd::prelude::*;

use iota_sdk_crypto::validator::ValidatorCommitteeSignatureVerifier;
use iota_sdk_crypto::SignatureError;
use iota_sdk_grpc_types::proto::TryFromProtoError;
use iota_sdk_grpc_types::v1::bcs::BcsData;
use iota_sdk_grpc_types::v1::{checkpoint, event, object, signatures, transaction};
use iota_sdk_types::{
    Bls12381PublicKey, DigestParseError, ValidatorCommittee, ValidatorCommitteeMember,
};

use crate::bytes::Digest;
use crate::checkpoint::ExecutionDigests;
use crate::committee::{AuthorityName, EpochId, StakeUnit, VotingRights};
use crate::object::ObjectRef;
use crate::transaction::Event;
use crate::views::encodings;

verus! {

/// The SDK's error for a message that cannot be decoded.
#[verifier::external_type_specification]
#[verifier::external_body]
pub struct ExTryFromProtoError(iota_sdk_grpc_types::proto::TryFromProtoError);

/// The SDK's error for a signature that does not verify.
#[verifier::external_type_specification]
#[verifier::external_body]
pub struct ExSignatureError(iota_sdk_crypto::SignatureError);

/// The SDK's error for a text that is not a digest.
#[verifier::external_type_specification]
#[verifier::external_body]
pub struct ExDigestParseError(iota_sdk_types::DigestParseError);

/// What is read from an encoded checkpoint summary.
#[derive(Debug)]
pub struct SummaryFields {
    pub epoch: EpochId,
    pub sequence_number: u64,
    pub contents_digest: Digest,
    pub next_epoch_committee: Option<Vec<(AuthorityName, StakeUnit)>>,
}

/// What a [`SummaryFields`] is.
pub struct SummaryFieldsView {
    pub epoch: EpochId,
    pub sequence_number: u64,
    pub contents_digest: Digest,
    pub next_epoch_committee: Option<VotingRights>,
}

impl View for SummaryFields {
    type V = SummaryFieldsView;

    open spec fn view(&self) -> SummaryFieldsView {
        SummaryFieldsView {
            epoch: self.epoch,
            sequence_number: self.sequence_number,
            contents_digest: self.contents_digest,
            next_epoch_committee: match self.next_epoch_committee {
                Some(rights) => Some(rights@),
                None => None,
            },
        }
    }
}

/// The fields of the checkpoint summary that `bcs` encodes, if it encodes one.
pub uninterp spec fn summary_fields(bcs: Seq<u8>) -> Option<SummaryFieldsView>;

/// Decodes a checkpoint summary with `CheckpointSummary::summary` of the gRPC
/// types: the result depends on the bytes alone.
#[verifier::external_body]
pub(crate) fn decode_summary(bcs: &Vec<u8>) -> (fields: Result<SummaryFields, TryFromProtoError>)
    ensures
        match fields {
            Ok(fields) => summary_fields(bcs@) == Some(fields@),
            Err(_) => summary_fields(bcs@) is None,
        },
{
    let summary = checkpoint::CheckpointSummary::default().with_bcs(bcs.clone()).summary()?;
    Ok(SummaryFields {
        epoch: summary.epoch,
        sequence_number: summary.sequence_number,
        contents_digest: summary.contents_digest.into_bytes(),
        next_epoch_committee: summary.end_of_epoch_data.map(
            |data| {
                let members = data.next_epoch_committee.iter();
                members.map(|m| (m.public_key.into_bytes(), m.stake)).collect()
            },
        ),
    })
}

/// The epoch of the validators' signature that `bcs` encodes, if it encodes one.
pub uninterp spec fn signature_epoch_of(bcs: Seq<u8>) -> Option<EpochId>;

/// Reads the epoch of an aggregated signature decoded with
/// `ValidatorAggregatedSignature::signature` of the gRPC types: the result
/// depends on the bytes alone.
#[verifier::external_body]
pub(crate) fn signature_epoch(bcs: &Vec<u8>) -> (epoch: Result<EpochId, TryFromProtoError>)
    ensures
        match epoch {
            Ok(epoch) => signature_epoch_of(bcs@) == Some(epoch),
            Err(_) => signature_epoch_of(bcs@) is None,
        },
{
    let message = signatures::ValidatorAggregatedSignature::default().with_bcs(bcs.clone());
    Ok(message.signature()?.epoch)
}

/// `signature` is a signature by a quorum of the committee of `epoch` with these
/// `members`, in this order, on the checkpoint summary `summary`.
pub uninterp spec fn quorum_signed(
    epoch: EpochId,
    members: VotingRights,
    summary: Seq<u8>,
    signature: Seq<u8>,
) -> bool;

/// Verifies an aggregated signature with
/// `ValidatorCommitteeSignatureVerifier::verify_checkpoint_summary` of the SDK's
/// cryptography: whether it succeeds depends on the committee, the summary and
/// the signature alone. What it takes, valid BLS signatures of members with more
/// than two thirds of the stake, is left to the name.
#[verifier::external_body]
pub(crate) fn check_quorum_signature(
    epoch: EpochId,
    members: &Vec<(AuthorityName, StakeUnit)>,
    summary: &Vec<u8>,
    signature: &Vec<u8>,
) -> (checked: Result<(), SignatureError>)
    ensures
        checked is Ok <==> quorum_signed(epoch, members@, summary@, signature@),
{
    let members = members
        .iter()
        .map(|m| ValidatorCommitteeMember { public_key: Bls12381PublicKey::new(m.0), stake: m.1 })
        .collect();
    let summary = checkpoint::CheckpointSummary::default().with_bcs(summary.clone());
    let signature = signatures::ValidatorAggregatedSignature::default().with_bcs(signature.clone());
    ValidatorCommitteeSignatureVerifier::new(ValidatorCommittee { epoch, members })?
        .verify_checkpoint_summary(
            &summary.summary().map_err(SignatureError::from_source)?,
            &signature.signature().map_err(SignatureError::from_source)?,
        )
}

/// The transactions listed in the checkpoint contents that `bcs` encodes, if it
/// encodes contents.
pub uninterp spec fn contents_transactions_of(bcs: Seq<u8>) -> Option<Seq<ExecutionDigests>>;

/// Lists the transactions of checkpoint contents decoded with
/// `CheckpointContents::contents` of the gRPC types: the result depends on the
/// bytes alone.
#[verifier::external_body]
pub(crate) fn contents_transactions(bcs: &Vec<u8>) -> (transactions: Result<
    Vec<ExecutionDigests>,
    TryFromProtoError,
>)
    ensures
        match transactions {
            Ok(transactions) => contents_transactions_of(bcs@) == Some(transactions@),
            Err(_) => contents_transactions_of(bcs@) is None,
        },
{
    let contents = checkpoint::CheckpointContents::default().with_bcs(bcs.clone()).contents()?;
    let digests = contents.transactions().iter().map(
        |info| ExecutionDigests {
            transaction: info.transaction.into_bytes(),
            effects: info.effects.into_bytes(),
        },
    );
    Ok(digests.collect())
}

/// The digest of the checkpoint contents that `bcs` encodes, if it encodes
/// contents.
pub uninterp spec fn contents_digest_of(bcs: Seq<u8>) -> Option<Digest>;

/// Computes `CheckpointContents::digest` of the SDK: the result depends on the
/// bytes alone.
#[verifier::external_body]
pub(crate) fn contents_digest(bcs: &Vec<u8>) -> (digest: Result<Digest, TryFromProtoError>)
    ensures
        match digest {
            Ok(digest) => contents_digest_of(bcs@) == Some(digest),
            Err(_) => contents_digest_of(bcs@) is None,
        },
{
    let contents = checkpoint::CheckpointContents::default().with_bcs(bcs.clone()).contents()?;
    Ok(contents.digest().into_bytes())
}

/// The digest of the transaction that `bcs` encodes, if it encodes one.
pub uninterp spec fn transaction_digest_of(bcs: Seq<u8>) -> Option<Digest>;

/// Computes `Transaction::digest` of the SDK: the result depends on the bytes
/// alone.
#[verifier::external_body]
pub(crate) fn transaction_digest(bcs: &Vec<u8>) -> (digest: Result<Digest, TryFromProtoError>)
    ensures
        match digest {
            Ok(digest) => transaction_digest_of(bcs@) == Some(digest),
            Err(_) => transaction_digest_of(bcs@) is None,
        },
{
    let transaction = transaction::Transaction::default().with_bcs(bcs.clone()).transaction()?;
    Ok(transaction.digest().into_bytes())
}

/// Whether `bcs` encodes a user signature.
pub uninterp spec fn is_user_signature(bcs: Seq<u8>) -> bool;

/// Decodes a user signature with `UserSignature::signature` of the gRPC types:
/// whether it succeeds depends on the bytes alone.
#[verifier::external_body]
pub(crate) fn check_user_signature(bcs: &Vec<u8>) -> (checked: Result<(), TryFromProtoError>)
    ensures
        checked is Ok <==> is_user_signature(bcs@),
{
    signatures::UserSignature::default().with_bcs(bcs.clone()).signature().map(|_| ())
}

/// The digest of the executed transaction and, where it emitted events, the
/// digest of its events, as recorded in the effects that `bcs` encodes, if it
/// encodes effects.
pub uninterp spec fn effects_fields_of(bcs: Seq<u8>) -> Option<(Digest, Option<Digest>)>;

/// Reads the transaction digest and the events digest of effects decoded with
/// `TransactionEffects::effects` of the gRPC types: the result depends on the
/// bytes alone.
#[verifier::external_body]
pub(crate) fn effects_fields(bcs: &Vec<u8>) -> (fields: Result<
    (Digest, Option<Digest>),
    TryFromProtoError,
>)
    ensures
        match fields {
            Ok(fields) => effects_fields_of(bcs@) == Some(fields),
            Err(_) => effects_fields_of(bcs@) is None,
        },
{
    let effects = transaction::TransactionEffects::default().with_bcs(bcs.clone()).effects()?;
    let v1 = effects.as_v1();
    Ok((v1.transaction_digest.into_bytes(), v1.events_digest.map(|digest| digest.into_bytes())))
}

/// The digest of the effects that `bcs` encodes, if it encodes effects.
pub uninterp spec fn effects_digest_of(bcs: Seq<u8>) -> Option<Digest>;

/// Computes `TransactionEffects::digest` of the SDK: the result depends on the
/// bytes alone.
#[verifier::external_body]
pub(crate) fn effects_digest(bcs: &Vec<u8>) -> (digest: Result<Digest, TryFromProtoError>)
    ensures
        match digest {
            Ok(digest) => effects_digest_of(bcs@) == Some(digest),
            Err(_) => effects_digest_of(bcs@) is None,
        },
{
    let effects = transaction::TransactionEffects::default().with_bcs(bcs.clone()).effects()?;
    Ok(effects.digest().into_bytes())
}

/// The references of the objects that are in the store after the transaction
/// whose effects `bcs` encodes, and that it created, mutated or unwrapped, if
/// `bcs` encodes effects.
pub uninterp spec fn changed_objects_of(bcs: Seq<u8>) -> Option<Seq<ObjectRef>>;

/// Lists `TransactionEffectsV1::all_changed_objects` of the SDK, each object by
/// its reference: the result depends on the bytes alone.
#[verifier::external_body]
pub(crate) fn changed_objects(bcs: &Vec<u8>) -> (objects: Result<Vec<ObjectRef>, TryFromProtoError>)
    ensures
        match objects {
            Ok(objects) => changed_objects_of(bcs@) == Some(objects@),
            Err(_) => changed_objects_of(bcs@) is None,
        },
{
    let effects = transaction::TransactionEffects::default().with_bcs(bcs.clone()).effects()?;
    let objects = effects.as_v1().all_changed_objects().into_iter().map(
        |(object, _)| ObjectRef {
            object_id: object.reference().object_id.into_bytes(),
            version: object.reference().version.as_u64(),
            digest: object.reference().digest.into_bytes(),
        },
    );
    Ok(objects.collect())
}

/// The digest of the list of events with these encodings, if each encodes an
/// event.
pub uninterp spec fn events_digest_of(events: Seq<Seq<u8>>) -> Option<Digest>;

/// Computes `TransactionEvents::digest` of the SDK on events decoded with
/// `TransactionEvents::events` of the gRPC types: the result depends on the
/// bytes alone.
#[verifier::external_body]
pub(crate) fn events_digest(events: &Vec<Event>) -> (digest: Result<Digest, TryFromProtoError>)
    ensures
        match digest {
            Ok(digest) => events_digest_of(encodings(events@)) == Some(digest),
            Err(_) => events_digest_of(encodings(events@)) is None,
        },
{
    let messages = events.iter().map(|e| event::Event::default().with_bcs(e.bcs.clone())).collect();
    let list = event::Events::default().with_events(messages);
    let events = transaction::TransactionEvents::default().with_events(list).events()?;
    Ok(events.digest().into_bytes())
}

/// The reference of the object that `bcs` encodes, if it encodes one.
pub uninterp spec fn object_reference_of(bcs: Seq<u8>) -> Option<ObjectRef>;

/// Computes `Object::object_ref` of the SDK: the result depends on the bytes
/// alone.
#[verifier::external_body]
pub(crate) fn object_reference(bcs: &Vec<u8>) -> (reference: Result<ObjectRef, TryFromProtoError>)
    ensures
        match reference {
            Ok(reference) => object_reference_of(bcs@) == Some(reference),
            Err(_) => object_reference_of(bcs@) is None,
        },
{
    let mut message = object::Object::default();
    message.bcs = Some(BcsData::from(bcs.clone()));
    let reference = message.object()?.object_ref();
    Ok(ObjectRef {
        object_id: reference.object_id.into_bytes(),
        version: reference.version.as_u64(),
        digest: reference.digest.into_bytes(),
    })
}

/// The digest of the checkpoint summary that `bcs` encodes, if it encodes one.
pub uninterp spec fn summary_digest_of(bcs: Seq<u8>) -> Option<Digest>;

/// Computes `CheckpointSummary::digest` of the SDK: the result depends on the
/// bytes alone.
#[verifier::external_body]
pub(crate) fn summary_digest(bcs: &Vec<u8>) -> (digest: Result<Digest, TryFromProtoError>)
    ensures
        match digest {
            Ok(digest) => summary_digest_of(bcs@) == Some(digest),
            Err(_) => summary_digest_of(bcs@) is None,
        },
{
    let summary = checkpoint::CheckpointSummary::default().with_bcs(bcs.clone()).summary()?;
    Ok(summary.digest().into_bytes())
}

/// The digest that `text` writes in Base58, if it writes one.
pub uninterp spec fn digest_from_base58(text: Seq<char>) -> Option<Digest>;

/// Reads a digest with `Digest::from_base58` of the SDK: the result depends on
/// the text alone.
#[verifier::external_body]
pub(crate) fn parse_digest(text: &str) -> (digest: Result<Digest, DigestParseError>)
    ensures
        match digest {
            Ok(digest) => digest_from_base58(text@) == Some(digest),
            Err(_) => digest_from_base58(text@) is None,
        },
{
    Ok(iota_sdk_types::Digest::from_base58(text)?.into_bytes())
}

/// The Base58 text of a digest.
pub uninterp spec fn digest_to_base58(digest: Digest) -> Seq<char>;

/// Writes a digest with `Digest::to_base58` of the SDK: the result depends on
/// the digest alone.
#[verifier::external_body]
pub(crate) fn digest_text(digest: &Digest) -> (text: String)
    ensures
        text@ == digest_to_base58(*digest),
{
    iota_sdk_types::Digest::new(*digest).to_base58()
}

} // verus!
