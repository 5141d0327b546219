//! What a call does, said of its arguments and its result.
//!
//! Each law speaks of a call that has returned, `call_ensures(f, arguments,
//! result)`, and says what holds of the result whatever the arguments were.

use vstd::prelude::*;

use crate::bytes::{copy_bytes, same_bytes, same_digest, same_optional_digest, Digest};
use crate::checkpoint::{
    certification, judge_signatures, signatures_verdict, CertifiedCheckpointSummary,
    CheckpointContents, ExecutionDigests,
};
use crate::cli::{
    created_proof_report, fetched_committee_report, parse_transaction_digest,
    verified_proof_report, walked_committee_report,
};
use crate::committee::{
    name_from_bytes, precedes, stake_of, total_stake, AuthorityName, Committee, EpochId,
    StakeUnit, VotingRights,
};
use crate::error::{
    certification_text, response_text, verify_text, walk_text, CertificationError, DecodeError,
    ResponseError, VerifyError, WalkError,
};
use crate::guarantees::{
    law_built_proof_is_what_was_served, law_held_committee, law_served_contents,
    law_served_effects, law_served_events, law_served_summary, law_served_transaction,
    law_served_transition, law_taken_committee,
};
use crate::object::{Object, ObjectRef};
use crate::proofs::{
    committee_verdict, events_verdict, judge_proof, objects_verdict, proof_verdict,
    transaction_verdict, verdict_given, verify_committee_target, verify_event,
    verify_event_targets, verify_object, verify_object_targets, verify_proof,
    verify_required_transaction_proof, verify_transaction_proof, Proof, ProofTargets,
    TransactionProof,
};
use crate::response::{
    checkpoint_contents_from_response, checkpoint_sequence_from_response,
    checkpoint_summary_from_response, committee_from_response, current_epoch_from_response,
    effects_from_response, events_from_response_if_present, executed_transaction_from_response,
    holds_committee, last_checkpoint_from_response, served_proof, transaction_from_response,
    transaction_proof_from_responses, CheckpointResponse, CommitteeMessage, ExecutedTransaction,
};
use crate::sdk::{
    changed_objects_of, contents_digest_of, contents_transactions_of, digest_from_base58,
    digest_to_base58, effects_digest_of, effects_fields_of, events_digest_of, is_user_signature,
    object_reference_of, quorum_signed, signature_epoch_of, summary_digest_of, summary_fields,
    transaction_digest_of, SummaryFieldsView,
};
use crate::text::{decimal, decimal_text};
use crate::transaction::{Event, EventID, Transaction, TransactionEffects, TransactionEvents};
use crate::views::{option_view, result_view};
use crate::walk::{
    ensure_target_epoch_is_reachable, judge_transition, next_committee_from_end_of_epoch_summary,
    next_verified_committee, transition_failure, CommitteeWalk,
};

verus! {

/// Comparing byte strings and digests tells whether they are equal, and a copy is
/// equal to what was copied.
pub proof fn law_comparing(
    a: &[u8],
    b: &[u8],
    c: &Digest,
    d: &Digest,
    e: &Option<Digest>,
    f: &Option<Digest>,
    g: &Vec<u8>,
    same: bool,
    copy: Vec<u8>,
)
    ensures
        call_ensures(same_bytes, (a, b), same) ==> same == (a@ == b@),
        call_ensures(same_digest, (c, d), same) ==> same == (*c == *d),
        call_ensures(same_optional_digest, (e, f), same) ==> same == (*e == *f),
        call_ensures(copy_bytes, (g,), copy) ==> copy@ == g@,
{
}

/// Executions, references and events are the same where all of them is.
pub proof fn law_comparing_chain_data(
    a: &ExecutionDigests,
    b: &ExecutionDigests,
    c: &ObjectRef,
    d: &ObjectRef,
    e: &Event,
    f: &Event,
    same: bool,
)
    ensures
        call_ensures(ExecutionDigests::same, (a, b), same) ==> same == (a.transaction
            == b.transaction && a.effects == b.effects),
        call_ensures(ObjectRef::same, (c, d), same) ==> same == (c.object_id == d.object_id
            && c.version == d.version && c.digest == d.digest),
        call_ensures(Event::same, (e, f), same) ==> same == (e.bcs@ == f.bcs@),
{
}

/// A committee is made of its epoch and of the rights given: each validator gets
/// its stake, no other validator gets any, and they are put in order.
pub proof fn law_new_committee(
    epoch: EpochId,
    rights: &Vec<(AuthorityName, StakeUnit)>,
    committee: Committee,
)
    requires
        call_ensures(Committee::new, (epoch, rights), committee),
    ensures
        committee@.epoch == epoch,
        forall|name: AuthorityName| #[trigger]
            stake_of(committee@.members, name) == stake_of(rights@, name),
        forall|i: int, j: int|
            0 <= i < j < committee@.members.len() ==> precedes(
                #[trigger] committee@.members[i].0,
                #[trigger] committee@.members[j].0,
            ),
{
}

/// A committee tells its epoch, its members and their combined stake, and it is
/// the same as another where epoch and members are.
pub proof fn law_committee_tells(
    committee: &Committee,
    other: &Committee,
    epoch: EpochId,
    rights: &Vec<(AuthorityName, StakeUnit)>,
    total: u128,
    same: bool,
    copy: Committee,
)
    ensures
        call_ensures(Committee::epoch, (committee,), epoch) ==> epoch == committee@.epoch,
        call_ensures(Committee::voting_rights, (committee,), rights) ==> rights@
            == committee@.members,
        call_ensures(Committee::total_votes, (committee,), total) ==> total == total_stake(
            committee@.members,
        ),
        call_ensures(Committee::same, (committee, other), same) ==> same == (committee@.epoch
            == other@.epoch && committee@.members == other@.members),
        call_ensures(Committee::clone, (committee,), copy) ==> copy@ == committee@,
{
}

/// A validator's name is read from exactly as many bytes as it has.
pub proof fn law_reading_a_name(bytes: &Vec<u8>, name: Option<AuthorityName>)
    requires
        call_ensures(name_from_bytes, (bytes,), name),
    ensures
        name is Some <==> bytes@.len() == 96,
        name is Some ==> name->0@ == bytes@,
{
}

/// A summary is decoded into all that the SDK reads in its bytes, or it is told
/// which of the two encodings does not decode.
pub proof fn law_decoding_a_summary(
    bcs: Vec<u8>,
    signature: Vec<u8>,
    summary: Result<CertifiedCheckpointSummary, DecodeError>,
)
    requires
        call_ensures(CertifiedCheckpointSummary::from_bcs, (bcs, signature), summary),
    ensures
        summary is Ok <==> summary_fields(bcs@) is Some && summary_digest_of(bcs@) is Some
            && signature_epoch_of(signature@) is Some,
        match summary {
            Ok(summary) => {
                &&& summary@.bcs == bcs@
                &&& summary@.signature == signature@
                &&& summary_digest_of(bcs@) == Some(summary@.digest)
                &&& summary_fields(bcs@) == Some(
                    SummaryFieldsView {
                        epoch: summary@.epoch,
                        sequence_number: summary@.sequence_number,
                        contents_digest: summary@.contents_digest,
                        next_epoch_committee: summary@.next_epoch_committee,
                    },
                )
                &&& signature_epoch_of(signature@) == Some(summary@.signature_epoch)
            },
            Err(error) => if summary_fields(bcs@) is Some && summary_digest_of(bcs@) is Some {
                error == DecodeError::ValidatorSignature
            } else {
                error == DecodeError::Summary
            },
        },
{
}

/// A summary tells what its bytes say.
pub proof fn law_summary_tells(
    summary: &CertifiedCheckpointSummary,
    bytes: &Vec<u8>,
    digest: &Digest,
    number: u64,
    rights: Option<&Vec<(AuthorityName, StakeUnit)>>,
)
    ensures
        call_ensures(CertifiedCheckpointSummary::bcs, (summary,), bytes) ==> bytes@
            == summary@.bcs,
        call_ensures(CertifiedCheckpointSummary::signature, (summary,), bytes) ==> bytes@
            == summary@.signature,
        call_ensures(CertifiedCheckpointSummary::digest, (summary,), digest)
            ==> summary_digest_of(summary@.bcs) == Some(*digest),
        call_ensures(CertifiedCheckpointSummary::epoch, (summary,), number) ==> number
            == summary_fields(summary@.bcs)->0.epoch,
        call_ensures(CertifiedCheckpointSummary::sequence_number, (summary,), number) ==> number
            == summary_fields(summary@.bcs)->0.sequence_number,
        call_ensures(CertifiedCheckpointSummary::next_epoch_committee, (summary,), rights)
            ==> match rights {
            Some(rights) => summary_fields(summary@.bcs)->0.next_epoch_committee == Some(rights@),
            None => summary_fields(summary@.bcs)->0.next_epoch_committee is None,
        },
{
}

/// Contents are decoded into exactly the transactions that the SDK reads in their
/// bytes.
pub proof fn law_decoding_contents(
    bcs: Vec<u8>,
    contents: Result<CheckpointContents, DecodeError>,
)
    requires
        call_ensures(CheckpointContents::from_bcs, (bcs,), contents),
    ensures
        contents is Ok <==> contents_digest_of(bcs@) is Some && contents_transactions_of(
            bcs@,
        ) is Some,
        match contents {
            Ok(contents) => {
                &&& contents@.bcs == bcs@
                &&& contents_digest_of(bcs@) == Some(contents@.digest)
                &&& contents_transactions_of(bcs@) == Some(contents@.transactions)
            },
            Err(error) => error == DecodeError::Contents,
        },
{
}

/// Contents tell what their bytes say, and list an execution exactly where the SDK
/// reads it among their transactions.
pub proof fn law_contents_tell(
    contents: &CheckpointContents,
    digests: &ExecutionDigests,
    bytes: &Vec<u8>,
    digest: &Digest,
    listed: bool,
)
    ensures
        call_ensures(CheckpointContents::bcs, (contents,), bytes) ==> bytes@ == contents@.bcs,
        call_ensures(CheckpointContents::digest, (contents,), digest) ==> contents_digest_of(
            contents@.bcs,
        ) == Some(*digest),
        call_ensures(CheckpointContents::lists, (contents, digests), listed) ==> {
            &&& contents_transactions_of(contents@.bcs) is Some
            &&& listed <==> exists|i: int|
                0 <= i < contents_transactions_of(contents@.bcs)->0.len() && (
                #[trigger] contents_transactions_of(contents@.bcs)->0[i]) == *digests
        },
{
    if call_ensures(CheckpointContents::lists, (contents, digests), listed) {
        let transactions = contents_transactions_of(contents@.bcs)->0;
        if listed {
            let i = choose|i: int| 0 <= i < transactions.len() && transactions[i] == *digests;
            assert(transactions[i] == *digests);
        }
    }
}

/// A transaction is decoded without signatures, and is given exactly those that
/// are user signatures, all or none.
pub proof fn law_decoding_a_transaction(
    bcs: Vec<u8>,
    unsigned: Result<Transaction, DecodeError>,
    transaction: Transaction,
    signatures: Vec<Vec<u8>>,
    signed: Result<Transaction, DecodeError>,
)
    ensures
        call_ensures(Transaction::from_bcs, (bcs,), unsigned) ==> match unsigned {
            Ok(unsigned) => {
                &&& unsigned@.bcs == bcs@
                &&& unsigned@.signatures.len() == 0
                &&& transaction_digest_of(bcs@) == Some(unsigned@.digest)
            },
            Err(error) => error == DecodeError::Transaction && transaction_digest_of(
                bcs@,
            ) is None,
        },
        call_ensures(Transaction::with_signatures, (transaction, signatures), signed)
            ==> match signed {
            Ok(signed) => {
                &&& signed@.bcs == transaction@.bcs
                &&& signed@.digest == transaction@.digest
                &&& signed@.signatures.len() == signatures@.len()
                &&& forall|i: int|
                    0 <= i < signatures@.len() ==> {
                        &&& signed@.signatures[i] == (#[trigger] signatures@[i])@
                        &&& is_user_signature(signatures@[i]@)
                    }
            },
            Err(error) => {
                &&& error == DecodeError::UserSignature
                &&& exists|i: int|
                    0 <= i < signatures@.len() && !is_user_signature(
                        (#[trigger] signatures@[i])@,
                    )
            },
        },
{
}

/// A transaction tells its bytes, its signatures and the digest of its bytes.
pub proof fn law_transaction_tells(
    transaction: &Transaction,
    bytes: &Vec<u8>,
    signatures: &Vec<Vec<u8>>,
    digest: &Digest,
)
    ensures
        call_ensures(Transaction::bcs, (transaction,), bytes) ==> bytes@ == transaction@.bcs,
        call_ensures(Transaction::signatures, (transaction,), signatures) ==> {
            &&& signatures@.len() == transaction@.signatures.len()
            &&& forall|i: int|
                0 <= i < signatures@.len() ==> (#[trigger] signatures@[i])@
                    == transaction@.signatures[i]
        },
        call_ensures(Transaction::digest, (transaction,), digest) ==> transaction_digest_of(
            transaction@.bcs,
        ) == Some(*digest),
{
}

/// Effects are decoded into exactly the digests and the changed objects that the
/// SDK reads in their bytes.
pub proof fn law_decoding_effects(bcs: Vec<u8>, effects: Result<TransactionEffects, DecodeError>)
    requires
        call_ensures(TransactionEffects::from_bcs, (bcs,), effects),
    ensures
        effects is Ok <==> effects_fields_of(bcs@) is Some && effects_digest_of(bcs@) is Some
            && changed_objects_of(bcs@) is Some,
        match effects {
            Ok(effects) => {
                &&& effects@.bcs == bcs@
                &&& effects_fields_of(bcs@) == Some(
                    (effects@.digests.transaction, effects@.events_digest),
                )
                &&& effects_digest_of(bcs@) == Some(effects@.digests.effects)
                &&& changed_objects_of(bcs@) == Some(effects@.changed_objects)
            },
            Err(error) => error == DecodeError::Effects,
        },
{
}

/// Effects tell what their bytes say.
pub proof fn law_effects_tell(
    effects: &TransactionEffects,
    bytes: &Vec<u8>,
    digests: ExecutionDigests,
    events_digest: &Option<Digest>,
    objects: &Vec<ObjectRef>,
)
    ensures
        call_ensures(TransactionEffects::bcs, (effects,), bytes) ==> bytes@ == effects@.bcs,
        call_ensures(TransactionEffects::execution_digests, (effects,), digests) ==> {
            &&& effects_fields_of(effects@.bcs) is Some
            &&& digests.transaction == (effects_fields_of(effects@.bcs)->0).0
            &&& effects_digest_of(effects@.bcs) == Some(digests.effects)
        },
        call_ensures(TransactionEffects::events_digest, (effects,), events_digest) ==> {
            &&& effects_fields_of(effects@.bcs) is Some
            &&& *events_digest == (effects_fields_of(effects@.bcs)->0).1
        },
        call_ensures(TransactionEffects::all_changed_objects, (effects,), objects)
            ==> changed_objects_of(effects@.bcs) == Some(objects@),
{
}

/// Events are decoded into exactly the events given, with the digest of the whole
/// list.
pub proof fn law_decoding_events(
    events: Vec<Event>,
    decoded: Result<TransactionEvents, DecodeError>,
)
    requires
        call_ensures(TransactionEvents::from_events, (events,), decoded),
    ensures
        match decoded {
            Ok(decoded) => {
                &&& decoded@.events.len() == events@.len()
                &&& forall|i: int|
                    0 <= i < events@.len() ==> decoded@.events[i] == (#[trigger] events@[i]).bcs@
                &&& events_digest_of(decoded@.events) == Some(decoded@.digest)
            },
            Err(error) => {
                &&& error == DecodeError::Events
                &&& events_digest_of(events@.map_values(|event: Event| event.bcs@)) is None
            },
        },
{
}

/// Events are told as they were given, in order.
pub proof fn law_events_tell(events: &TransactionEvents, list: &Vec<Event>, digest: &Digest)
    ensures
        call_ensures(TransactionEvents::events, (events,), list) ==> {
            &&& list@.len() == events@.events.len()
            &&& forall|i: int|
                0 <= i < list@.len() ==> (#[trigger] list@[i]).bcs@ == events@.events[i]
        },
        call_ensures(TransactionEvents::digest, (events,), digest) ==> events_digest_of(
            events@.events,
        ) == Some(*digest),
{
}

/// An object is decoded with the reference that the SDK computes of its bytes, and
/// tells both.
pub proof fn law_decoding_an_object(
    bcs: Vec<u8>,
    decoded: Result<Object, DecodeError>,
    object: &Object,
    bytes: &Vec<u8>,
    reference: ObjectRef,
)
    ensures
        call_ensures(Object::from_bcs, (bcs,), decoded) ==> match decoded {
            Ok(decoded) => {
                &&& decoded@.bcs == bcs@
                &&& object_reference_of(bcs@) == Some(decoded@.reference)
            },
            Err(error) => error == DecodeError::Object && object_reference_of(bcs@) is None,
        },
        call_ensures(Object::bcs, (object,), bytes) ==> bytes@ == object@.bcs,
        call_ensures(Object::compute_object_reference, (object,), reference)
            ==> object_reference_of(object@.bcs) == Some(reference),
{
}

/// Signatures are judged by the epochs first, and by the quorum last.
pub proof fn law_judging_signatures(
    summary_epoch: EpochId,
    signature_epoch: EpochId,
    committee_epoch: EpochId,
    signed: bool,
    verdict: Result<(), CertificationError>,
)
    requires
        call_ensures(
            judge_signatures,
            (summary_epoch, signature_epoch, committee_epoch, signed),
            verdict,
        ),
    ensures
        summary_epoch != signature_epoch ==> verdict == Err::<(), _>(
            CertificationError::SummaryEpoch { summary: summary_epoch, signature: signature_epoch },
        ),
        summary_epoch == signature_epoch && signature_epoch != committee_epoch ==> verdict
            == Err::<(), _>(
            CertificationError::CommitteeEpoch {
                committee: committee_epoch,
                signature: signature_epoch,
            },
        ),
        summary_epoch == signature_epoch && signature_epoch == committee_epoch ==> verdict
            == if signed {
            Ok(())
        } else {
            Err(CertificationError::Signature)
        },
{
}

/// A checkpoint is certified where a quorum of the committee signed the bytes of
/// the summary in the committee's epoch and the summary commits to the bytes of
/// the contents, if any are given.
pub proof fn law_certifying(
    summary: &CertifiedCheckpointSummary,
    committee: &Committee,
    contents: Option<&CheckpointContents>,
    signed: Result<(), CertificationError>,
    verified: Result<(), CertificationError>,
)
    ensures
        call_ensures(
            CertifiedCheckpointSummary::verify_authority_signatures,
            (summary, committee),
            signed,
        ) ==> signed == signatures_verdict(committee@, summary@),
        call_ensures(
            CertifiedCheckpointSummary::verify_with_contents,
            (summary, committee, contents),
            verified,
        ) ==> verified == certification(committee@, summary@, option_view(contents)),
        call_ensures(
            CertifiedCheckpointSummary::verify_authority_signatures,
            (summary, committee),
            signed,
        ) ==> (signed is Ok <==> {
            &&& summary_fields(summary@.bcs)->0.epoch == committee@.epoch
            &&& signature_epoch_of(summary@.signature) == Some(committee@.epoch)
            &&& quorum_signed(
                committee@.epoch,
                committee@.members,
                summary@.bcs,
                summary@.signature,
            )
        }),
        call_ensures(
            CertifiedCheckpointSummary::verify_with_contents,
            (summary, committee, contents),
            verified,
        ) ==> (verified is Ok <==> {
            &&& summary_fields(summary@.bcs)->0.epoch == committee@.epoch
            &&& signature_epoch_of(summary@.signature) == Some(committee@.epoch)
            &&& quorum_signed(
                committee@.epoch,
                committee@.members,
                summary@.bcs,
                summary@.signature,
            )
            &&& contents is Some ==> contents_digest_of(contents->0@.bcs) == Some(
                summary_fields(summary@.bcs)->0.contents_digest,
            )
        }),
{
}

/// Targets are collected: each addition adds what it is given and leaves the rest.
pub proof fn law_collecting_targets(
    targets: ProofTargets,
    reference: ObjectRef,
    object: Object,
    id: EventID,
    event: Event,
    committee: Committee,
    more: ProofTargets,
)
    ensures
        call_ensures(ProofTargets::new, (), more) ==> {
            &&& more.objects@.len() == 0
            &&& more.events@.len() == 0
            &&& more.committee is None
        },
        call_ensures(ProofTargets::add_object, (targets, reference, object), more) ==> {
            &&& more.objects@ == targets.objects@.push((reference, object))
            &&& more.events == targets.events
            &&& more.committee == targets.committee
        },
        call_ensures(ProofTargets::add_event, (targets, id, event), more) ==> {
            &&& more.objects == targets.objects
            &&& more.events@ == targets.events@.push((id, event))
            &&& more.committee == targets.committee
        },
        call_ensures(ProofTargets::set_committee, (targets, committee), more) ==> {
            &&& more.objects == targets.objects
            &&& more.events == targets.events
            &&& more.committee == Some(committee)
        },
{
}

/// A committee target is verified against what the bytes of the summary name:
/// the next epoch and each validator's own stake.
pub proof fn law_verifying_a_committee(
    summary: &CertifiedCheckpointSummary,
    targets: &ProofTargets,
    verified: Result<(), VerifyError>,
)
    requires
        call_ensures(verify_committee_target, (summary, targets), verified),
    ensures
        verified == committee_verdict(summary@, targets@.committee),
        verified is Ok <==> (targets.committee is None || {
            let fields = summary_fields(summary@.bcs)->0;
            let next = targets.committee->0@;
            &&& fields.next_epoch_committee is Some
            &&& next.epoch == fields.epoch + 1
            &&& forall|name: AuthorityName| #[trigger]
                stake_of(next.members, name) == stake_of(fields.next_epoch_committee->0, name)
        }),
{
}

/// Evidence may be absent only where nothing needs it.
pub proof fn law_verifying_presence(proof: &Proof, verified: Result<(), VerifyError>)
    requires
        call_ensures(verify_required_transaction_proof, (proof,), verified),
    ensures
        verified is Ok <==> proof.contents_proof is Some || (proof.targets.objects@.len() == 0
            && proof.targets.events@.len() == 0),
        verified is Err ==> verified->Err_0 == VerifyError::ContentsProofMissing,
{
}

/// A transaction is verified where the effects record its digest, the contents
/// list the digests of both among all that they list, and the events presented
/// have the digest that the effects record; none are presented where the effects
/// record none, however many there are.
pub proof fn law_verifying_a_transaction(
    evidence: &TransactionProof,
    verified: Result<(), VerifyError>,
)
    requires
        call_ensures(verify_transaction_proof, (evidence,), verified),
    ensures
        verified == transaction_verdict(evidence@),
        verified is Ok <==> ({
            let (transaction, events_digest) = effects_fields_of(evidence@.effects.bcs)->0;
            let effects = effects_digest_of(evidence@.effects.bcs)->0;
            &&& transaction_digest_of(evidence@.transaction.bcs) == Some(transaction)
            &&& contents_transactions_of(evidence@.checkpoint_contents.bcs)->0.contains(
                ExecutionDigests { transaction, effects },
            )
            &&& evidence.events is Some <==> events_digest is Some
            &&& evidence.events is Some ==> events_digest_of(evidence.events->0@.events)
                == events_digest
        }),
{
}

/// Event targets are verified where each is the event at its place.
pub proof fn law_verifying_events(
    targets: &ProofTargets,
    evidence: &TransactionProof,
    verified: Result<(), VerifyError>,
)
    requires
        call_ensures(verify_event_targets, (targets, evidence), verified),
    ensures
        verified == events_verdict(targets@.events, evidence@),
        verified is Ok <==> forall|i: int|
            0 <= i < targets.events@.len() ==> {
                let (id, event) = #[trigger] targets.events@[i];
                &&& id.tx_digest == (effects_fields_of(evidence@.effects.bcs)->0).0
                &&& evidence.events is Some
                &&& id.event_seq < evidence.events->0@.events.len()
                &&& evidence.events->0@.events[id.event_seq as int] == event.bcs@
            },
{
}

/// One event is verified where it is the event at its place.
pub proof fn law_verifying_an_event(
    transaction: &Digest,
    events: &Vec<Event>,
    id: &EventID,
    event: &Event,
    verified: Result<(), VerifyError>,
)
    requires
        call_ensures(verify_event, (transaction, events, id, event), verified),
    ensures
        id.tx_digest != *transaction ==> verified == Err::<(), _>(
            VerifyError::EventOfOtherTransaction,
        ),
        id.tx_digest == *transaction && id.event_seq >= events@.len() ==> verified == Err::<(), _>(
            VerifyError::EventOutOfBounds,
        ),
        verified is Err && id.tx_digest == *transaction && id.event_seq < events@.len()
            ==> verified == Err::<(), _>(VerifyError::EventMismatch),
        verified is Ok <==> {
            &&& id.tx_digest == *transaction
            &&& id.event_seq < events@.len()
            &&& events@[id.event_seq as int].bcs@ == event.bcs@
        },
{
}

/// Object targets are verified where the reference of each is computed of its
/// bytes and is among all that the SDK reads in the effects as changed.
pub proof fn law_verifying_objects(
    targets: &ProofTargets,
    evidence: &TransactionProof,
    verified: Result<(), VerifyError>,
)
    requires
        call_ensures(verify_object_targets, (targets, evidence), verified),
    ensures
        verified == objects_verdict(targets@.objects, evidence@),
        verified is Ok <==> forall|i: int|
            0 <= i < targets.objects@.len() ==> {
                let (reference, object) = #[trigger] targets.objects@[i];
                &&& object_reference_of(object@.bcs) == Some(reference)
                &&& changed_objects_of(evidence@.effects.bcs)->0.contains(reference)
            },
{
}

/// One object is verified where its reference is computed of its bytes and is
/// among all the changed ones.
pub proof fn law_verifying_an_object(
    changed: &Vec<ObjectRef>,
    reference: &ObjectRef,
    object: &Object,
    verified: Result<(), VerifyError>,
)
    requires
        call_ensures(verify_object, (changed, reference, object), verified),
    ensures
        object_reference_of(object@.bcs) != Some(*reference) ==> verified == Err::<(), _>(
            VerifyError::ObjectReferenceMismatch,
        ),
        verified is Err && object_reference_of(object@.bcs) == Some(*reference) ==> verified
            == Err::<(), _>(VerifyError::ObjectNotFound),
        verified is Ok <==> {
            &&& object_reference_of(object@.bcs) == Some(*reference)
            &&& exists|i: int|
                0 <= i < changed@.len() && (#[trigger] changed@[i]) == *reference
        },
{
}

/// A proof is verified against a committee exactly where a quorum of the committee
/// signed the bytes of the summary in their common epoch; a committee target is
/// what these bytes name; and the evidence, without which no event and no object
/// is proved, is what the chain committed to: contents with the digest in the
/// summary that list the execution, events with the digest in the effects, each
/// target event at its place, each target object among those changed.
pub proof fn law_verifying_a_proof(
    committee: &Committee,
    proof: &Proof,
    verified: Result<(), VerifyError>,
)
    requires
        call_ensures(verify_proof, (committee, proof), verified),
    ensures
        verified == proof_verdict(committee@, proof@),
        verified is Ok <==> ({
            let summary = proof.checkpoint_summary@;
            let fields = summary_fields(summary.bcs)->0;
            &&& fields.epoch == committee@.epoch
            &&& signature_epoch_of(summary.signature) == Some(committee@.epoch)
            &&& quorum_signed(
                committee@.epoch,
                committee@.members,
                summary.bcs,
                summary.signature,
            )
            &&& proof.targets.committee is Some ==> {
                let next = proof.targets.committee->0@;
                &&& fields.next_epoch_committee is Some
                &&& next.epoch == fields.epoch + 1
                &&& forall|name: AuthorityName| #[trigger]
                    stake_of(next.members, name) == stake_of(
                        fields.next_epoch_committee->0,
                        name,
                    )
            }
            &&& proof.contents_proof is None ==> {
                &&& proof.targets.events@.len() == 0
                &&& proof.targets.objects@.len() == 0
            }
            &&& proof.contents_proof is Some ==> {
                let evidence = proof.contents_proof->0;
                let contents = evidence@.checkpoint_contents.bcs;
                let (transaction, events_digest) = effects_fields_of(evidence@.effects.bcs)->0;
                let effects = effects_digest_of(evidence@.effects.bcs)->0;
                &&& contents_digest_of(contents) == Some(fields.contents_digest)
                &&& contents_transactions_of(contents)->0.contains(
                    ExecutionDigests { transaction, effects },
                )
                &&& transaction_digest_of(evidence@.transaction.bcs) == Some(transaction)
                &&& evidence.events is Some <==> events_digest is Some
                &&& evidence.events is Some ==> events_digest_of(evidence.events->0@.events)
                    == events_digest
                &&& forall|i: int|
                    0 <= i < proof.targets.events@.len() ==> {
                        let (id, event) = #[trigger] proof.targets.events@[i];
                        &&& id.tx_digest == transaction
                        &&& evidence.events is Some
                        &&& id.event_seq < evidence.events->0@.events.len()
                        &&& evidence.events->0@.events[id.event_seq as int] == event.bcs@
                    }
                &&& forall|i: int|
                    0 <= i < proof.targets.objects@.len() ==> {
                        let (reference, object) = #[trigger] proof.targets.objects@[i];
                        &&& object_reference_of(object@.bcs) == Some(reference)
                        &&& changed_objects_of(evidence@.effects.bcs)->0.contains(reference)
                    }
            }
        }),
{
}

/// What is verified of a proof is what is judged of it once its certification is
/// known.
pub proof fn law_judging_a_proof(
    committee: &Committee,
    proof: &Proof,
    certified: Result<(), CertificationError>,
    verified: Result<(), VerifyError>,
    judged: Result<(), VerifyError>,
)
    requires
        call_ensures(verify_proof, (committee, proof), verified),
        call_ensures(judge_proof, (certified, proof), judged),
    ensures
        judged == verdict_given(certified, proof@),
        certified is Err ==> judged == Err::<(), _>(
            VerifyError::Certification(certified->Err_0),
        ),
        certified is Ok && !(verified is Err && verified->Err_0 is Certification) ==> judged
            == verified,
{
}

/// A summary is taken from the two messages that carry it, as they are.
pub proof fn law_taking_a_summary(
    checkpoint: &CheckpointResponse,
    summary: Result<CertifiedCheckpointSummary, ResponseError>,
)
    requires
        call_ensures(checkpoint_summary_from_response, (checkpoint,), summary),
    ensures
        match summary {
            Ok(summary) => {
                &&& checkpoint@.summary == Some(Some(summary@.bcs))
                &&& checkpoint@.signature == Some(Some(summary@.signature))
                &&& summary_fields(summary@.bcs) == Some(
                    SummaryFieldsView {
                        epoch: summary@.epoch,
                        sequence_number: summary@.sequence_number,
                        contents_digest: summary@.contents_digest,
                        next_epoch_committee: summary@.next_epoch_committee,
                    },
                )
                &&& signature_epoch_of(summary@.signature) == Some(summary@.signature_epoch)
            },
            Err(error) => {
                &&& error == ResponseError::NoSignedSummary
                &&& {
                    ||| checkpoint@.summary is None
                    ||| checkpoint@.summary->0 is None
                    ||| summary_fields(checkpoint@.summary->0->0) is None
                    ||| summary_digest_of(checkpoint@.summary->0->0) is None
                    ||| checkpoint@.signature is None
                    ||| checkpoint@.signature->0 is None
                    ||| signature_epoch_of(checkpoint@.signature->0->0) is None
                }
            },
        },
{
    law_served_summary(checkpoint@);
}

/// Contents are taken from the message that carries them, as they are.
pub proof fn law_taking_contents(
    checkpoint: &CheckpointResponse,
    contents: Result<CheckpointContents, ResponseError>,
)
    requires
        call_ensures(checkpoint_contents_from_response, (checkpoint,), contents),
    ensures
        match contents {
            Ok(contents) => {
                &&& checkpoint@.contents == Some(Some(contents@.bcs))
                &&& contents_digest_of(contents@.bcs) == Some(contents@.digest)
                &&& contents_transactions_of(contents@.bcs) == Some(contents@.transactions)
            },
            Err(error) => if checkpoint@.contents is None {
                error == ResponseError::NoContents
            } else {
                &&& error == ResponseError::Contents
                &&& {
                    ||| checkpoint@.contents->0 is None
                    ||| contents_digest_of(checkpoint@.contents->0->0) is None
                    ||| contents_transactions_of(checkpoint@.contents->0->0) is None
                }
            },
        },
{
    law_served_contents(checkpoint@);
}

/// A transaction is taken with every signature served, in order; one that is
/// missing or is no signature fails the whole.
pub proof fn law_taking_a_transaction(
    transaction: &ExecutedTransaction,
    signed: Result<Transaction, ResponseError>,
)
    requires
        call_ensures(transaction_from_response, (transaction,), signed),
    ensures
        match signed {
            Ok(signed) => {
                &&& transaction@.transaction == Some(Some(signed@.bcs))
                &&& transaction_digest_of(signed@.bcs) == Some(signed@.digest)
                &&& transaction@.signatures is Some
                &&& signed@.signatures.len() == transaction@.signatures->0.len()
                &&& forall|i: int|
                    0 <= i < transaction@.signatures->0.len() ==> (
                    #[trigger] transaction@.signatures->0[i]) == Some(signed@.signatures[i])
            },
            Err(error) => {
                ||| error == ResponseError::NoTransactionData && transaction@.transaction is None
                ||| {
                    &&& error == ResponseError::TransactionData
                    &&& transaction@.transaction is Some
                    &&& transaction@.transaction->0 is None || transaction_digest_of(
                        transaction@.transaction->0->0,
                    ) is None
                }
                ||| {
                    &&& transaction@.transaction is Some
                    &&& transaction@.transaction->0 is Some
                    &&& transaction_digest_of(transaction@.transaction->0->0) is Some
                    &&& {
                        ||| error == ResponseError::NoSignatures && transaction@.signatures is None
                        ||| {
                            &&& error == ResponseError::Signatures
                            &&& transaction@.signatures is Some
                            &&& exists|i: int|
                                0 <= i < transaction@.signatures->0.len() && {
                                    ||| (#[trigger] transaction@.signatures->0[i]) is None
                                    ||| !is_user_signature(transaction@.signatures->0[i]->0)
                                }
                        }
                    }
                }
            },
        },
{
    law_served_transaction(transaction@);
}

/// Effects are taken from the message that carries them, as they are.
pub proof fn law_taking_effects(
    transaction: &ExecutedTransaction,
    effects: Result<TransactionEffects, ResponseError>,
)
    requires
        call_ensures(effects_from_response, (transaction,), effects),
    ensures
        match effects {
            Ok(effects) => {
                &&& transaction@.effects == Some(Some(effects@.bcs))
                &&& effects_fields_of(effects@.bcs) == Some(
                    (effects@.digests.transaction, effects@.events_digest),
                )
                &&& effects_digest_of(effects@.bcs) == Some(effects@.digests.effects)
                &&& changed_objects_of(effects@.bcs) == Some(effects@.changed_objects)
            },
            Err(error) => if transaction@.effects is None {
                error == ResponseError::NoEffects
            } else {
                &&& error == ResponseError::Effects
                &&& {
                    ||| transaction@.effects->0 is None
                    ||| effects_fields_of(transaction@.effects->0->0) is None
                    ||| effects_digest_of(transaction@.effects->0->0) is None
                    ||| changed_objects_of(transaction@.effects->0->0) is None
                }
            },
        },
{
    law_served_effects(transaction@);
}

/// Events are taken exactly where the effects record a digest of events, and then
/// every event served, in order.
pub proof fn law_taking_events(
    transaction: &ExecutedTransaction,
    effects: &TransactionEffects,
    events: Result<Option<TransactionEvents>, ResponseError>,
)
    requires
        call_ensures(events_from_response_if_present, (transaction, effects), events),
    ensures
        match events {
            Ok(None) => effects@.events_digest is None,
            Ok(Some(events)) => {
                &&& effects@.events_digest is Some
                &&& transaction@.events is Some
                &&& transaction@.events->0 is Some
                &&& events@.events.len() == transaction@.events->0->0.len()
                &&& forall|i: int|
                    0 <= i < events@.events.len() ==> (#[trigger] transaction@.events->0->0[i])
                        == Some(events@.events[i])
                &&& events_digest_of(events@.events) == Some(events@.digest)
            },
            Err(error) => {
                &&& effects@.events_digest is Some
                &&& if transaction@.events is None {
                    error == ResponseError::NoEvents
                } else {
                    &&& error == ResponseError::Events
                    &&& {
                        ||| transaction@.events->0 is None
                        ||| exists|i: int|
                            0 <= i < transaction@.events->0->0.len() && (
                            #[trigger] transaction@.events->0->0[i]) is None
                        ||| events_digest_of(
                            Seq::new(
                                transaction@.events->0->0.len(),
                                |i: int| transaction@.events->0->0[i]->0,
                            ),
                        ) is None
                    }
                }
            },
        },
{
    law_served_events(transaction@, effects@.events_digest);
}

/// A proof is built exactly where every part of the replies can be taken; it then
/// holds each part as served and is about the transaction asked for.
pub proof fn law_building_a_proof(
    asked: &Digest,
    transaction: &ExecutedTransaction,
    checkpoint: &CheckpointResponse,
    built: Result<Proof, ResponseError>,
)
    requires
        call_ensures(
            transaction_proof_from_responses,
            (asked, transaction, checkpoint),
            built,
        ),
    ensures
        result_view(built) == served_proof(*asked, transaction@, checkpoint@),
        built is Ok ==> {
            let proof = built->Ok_0@;
            let evidence = proof.contents_proof->0;
            &&& proof.targets.objects.len() == 0
            &&& proof.targets.events.len() == 0
            &&& proof.targets.committee is None
            &&& checkpoint@.summary == Some(Some(proof.checkpoint_summary.bcs))
            &&& checkpoint@.signature == Some(Some(proof.checkpoint_summary.signature))
            &&& proof.contents_proof is Some
            &&& checkpoint@.contents == Some(Some(evidence.checkpoint_contents.bcs))
            &&& transaction@.transaction == Some(Some(evidence.transaction.bcs))
            &&& transaction_digest_of(evidence.transaction.bcs) == Some(*asked)
            &&& transaction@.signatures is Some
            &&& evidence.transaction.signatures.len() == transaction@.signatures->0.len()
            &&& forall|i: int|
                0 <= i < evidence.transaction.signatures.len() ==> (
                #[trigger] transaction@.signatures->0[i]) == Some(
                    evidence.transaction.signatures[i],
                )
            &&& transaction@.effects == Some(Some(evidence.effects.bcs))
            &&& evidence.events is Some <==> (effects_fields_of(evidence.effects.bcs)->0).1 is Some
            &&& evidence.events is Some ==> {
                &&& transaction@.events is Some
                &&& transaction@.events->0 is Some
                &&& evidence.events->0.events.len() == transaction@.events->0->0.len()
                &&& forall|i: int|
                    0 <= i < evidence.events->0.events.len() ==> (
                    #[trigger] transaction@.events->0->0[i]) == Some(
                        evidence.events->0.events[i],
                    )
            }
        },
{
    law_built_proof_is_what_was_served(*asked, transaction@, checkpoint@);
}

/// Single values are taken from replies as served, or what is missing is told.
pub proof fn law_taking_single_values(
    digest: &Digest,
    transactions: Vec<ExecutedTransaction>,
    transaction: &ExecutedTransaction,
    epoch: EpochId,
    number: Option<u64>,
    taken: Result<ExecutedTransaction, ResponseError>,
    value: Result<u64, ResponseError>,
)
    ensures
        call_ensures(executed_transaction_from_response, (digest, transactions), taken)
            ==> if transactions@.len() == 0 {
            taken == Err::<ExecutedTransaction, _>(
                ResponseError::NoTransaction { digest: *digest },
            )
        } else {
            taken == Ok::<_, ResponseError>(transactions@[0])
        },
        call_ensures(checkpoint_sequence_from_response, (digest, transaction), value)
            ==> if transaction.checkpoint is None {
            value == Err::<u64, _>(ResponseError::NoCheckpointSequence { digest: *digest })
        } else {
            value == Ok::<_, ResponseError>(transaction.checkpoint->0)
        },
        call_ensures(current_epoch_from_response, (number,), value) ==> if number is None {
            value == Err::<u64, _>(ResponseError::NoCurrentEpoch)
        } else {
            value == Ok::<_, ResponseError>(number->0)
        },
        call_ensures(last_checkpoint_from_response, (epoch, number), value)
            ==> if number is None {
            value == Err::<u64, _>(ResponseError::NoLastCheckpoint { epoch })
        } else {
            value == Ok::<_, ResponseError>(number->0)
        },
{
}

/// A committee is taken from a reply with its epoch and every member, each with
/// its own stake. It is refused where the epoch, a key, a stake or the list is
/// missing or a key has another length.
pub proof fn law_taking_a_committee(
    epoch: EpochId,
    committee: &Option<CommitteeMessage>,
    taken: Result<Committee, ResponseError>,
    rights: VotingRights,
)
    requires
        call_ensures(committee_from_response, (epoch, committee), taken),
        committee is Some,
        committee->0@.epoch is Some,
        committee->0@.members is Some,
        committee->0@.members->0.len() == rights.len(),
        forall|i: int|
            0 <= i < rights.len() ==> {
                &&& (#[trigger] committee->0@.members->0[i]).0 == Some(rights[i].0@)
                &&& committee->0@.members->0[i].1 == Some(rights[i].1)
            },
    ensures
        taken is Ok,
        taken->Ok_0@.epoch == committee->0@.epoch->0,
        forall|name: AuthorityName| #[trigger]
            stake_of(taken->Ok_0@.members, name) == stake_of(rights, name),
{
    let message = committee->0@;
    law_held_committee(message, message.epoch->0, rights);
    assert(holds_committee(message, message.epoch->0, rights));
    law_taken_committee(message, rights, taken->Ok_0@);
}

/// A committee that is taken from a reply is one that the reply holds.
pub proof fn law_taken_committee_is_served(
    epoch: EpochId,
    committee: &Option<CommitteeMessage>,
    taken: Result<Committee, ResponseError>,
)
    requires
        call_ensures(committee_from_response, (epoch, committee), taken),
    ensures
        taken is Err ==> taken->Err_0 == (ResponseError::NoCommittee { epoch }),
        taken is Ok ==> {
            &&& committee is Some
            &&& committee->0@.epoch == Some(taken->Ok_0@.epoch)
            &&& committee->0@.members is Some
            &&& forall|i: int|
                0 <= i < committee->0@.members->0.len() ==> {
                    let (public_key, weight) = #[trigger] committee->0@.members->0[i];
                    &&& public_key is Some
                    &&& public_key->0.len() == 96
                    &&& weight is Some
                }
        },
{
    if taken is Ok {
        let message = committee->0@;
        let rights = choose|rights: VotingRights|
            committee is Some && #[trigger] holds_committee(
                message,
                taken->Ok_0@.epoch,
                rights,
            ) && taken->Ok_0@.is_committee_of(taken->Ok_0@.epoch, rights);
        law_held_committee(message, taken->Ok_0@.epoch, rights);
    }
}

/// A target epoch is reachable from the trusted epoch on, up to the node's.
pub proof fn law_reaching(
    trusted: EpochId,
    target: EpochId,
    node: EpochId,
    reachable: Result<(), WalkError>,
)
    requires
        call_ensures(ensure_target_epoch_is_reachable, (trusted, target, node), reachable),
    ensures
        target < trusted ==> reachable == Err::<(), _>(
            WalkError::TargetBeforeTrusted { target, trusted },
        ),
        trusted <= target && node < target ==> reachable == Err::<(), _>(
            WalkError::TargetAheadOfNode { target, node },
        ),
        trusted <= target <= node ==> reachable is Ok,
{
}

/// The next committee is what the bytes of the summary name: the next epoch and
/// each validator's own stake.
pub proof fn law_next_committee(
    summary: &CertifiedCheckpointSummary,
    checkpoint: u64,
    next: Result<Committee, WalkError>,
)
    requires
        call_ensures(next_committee_from_end_of_epoch_summary, (summary, checkpoint), next),
    ensures
        summary@.next_epoch_committee is None ==> next == Err::<Committee, _>(
            WalkError::NotEndOfEpoch { checkpoint },
        ),
        summary@.next_epoch_committee is Some && summary@.epoch == u64::MAX ==> next == Err::<
            Committee,
            _,
        >(WalkError::NextEpochOverflow),
        summary@.next_epoch_committee is Some && summary@.epoch < u64::MAX ==> {
            &&& next is Ok
            &&& next->Ok_0@.epoch == summary@.epoch + 1
            &&& forall|name: AuthorityName| #[trigger]
                stake_of(next->Ok_0@.members, name) == stake_of(
                    summary@.next_epoch_committee->0,
                    name,
                )
        },
{
}

/// A transition that is not certified is told as such, and else judged by the
/// committee it names.
pub proof fn law_judging_a_transition(
    certified: Result<(), CertificationError>,
    epoch: EpochId,
    summary: &CertifiedCheckpointSummary,
    checkpoint: u64,
    next: Result<Committee, WalkError>,
)
    requires
        call_ensures(judge_transition, (certified, epoch, summary, checkpoint), next),
    ensures
        certified is Err ==> next == Err::<Committee, _>(
            WalkError::Transition { epoch, checkpoint, error: certified->Err_0 },
        ),
        certified is Ok && summary@.next_epoch_committee is None ==> next == Err::<Committee, _>(
            WalkError::NotEndOfEpoch { checkpoint },
        ),
        certified is Ok && summary@.next_epoch_committee is Some && summary@.epoch == u64::MAX
            ==> next == Err::<Committee, _>(WalkError::NextEpochOverflow),
        certified is Ok && summary@.next_epoch_committee is Some && summary@.epoch < u64::MAX ==> {
            &&& next is Ok
            &&& next->Ok_0@.epoch == summary@.epoch + 1
            &&& forall|name: AuthorityName| #[trigger]
                stake_of(next->Ok_0@.members, name) == stake_of(
                    summary@.next_epoch_committee->0,
                    name,
                )
        },
{
}

/// The next verified committee is what the bytes served name, where a quorum of
/// the current committee signed them in its epoch; and wherever they do, it is
/// found.
pub proof fn law_next_verified_committee(
    current: &Committee,
    checkpoint: &CheckpointResponse,
    last_checkpoint: u64,
    next: Result<Committee, WalkError>,
)
    requires
        call_ensures(next_verified_committee, (current, checkpoint, last_checkpoint), next),
    ensures
        match next {
            Ok(next) => transition_failure(current@, checkpoint@, last_checkpoint) is None,
            Err(error) => transition_failure(current@, checkpoint@, last_checkpoint) == Some(
                error,
            ),
        },
        next is Ok <==> {
            &&& checkpoint@.summary is Some
            &&& checkpoint@.summary->0 is Some
            &&& checkpoint@.signature is Some
            &&& checkpoint@.signature->0 is Some
            &&& summary_digest_of(checkpoint@.summary->0->0) is Some
            &&& summary_fields(checkpoint@.summary->0->0) is Some
            &&& summary_fields(checkpoint@.summary->0->0)->0.epoch == current@.epoch
            &&& signature_epoch_of(checkpoint@.signature->0->0) == Some(current@.epoch)
            &&& quorum_signed(
                current@.epoch,
                current@.members,
                checkpoint@.summary->0->0,
                checkpoint@.signature->0->0,
            )
            &&& summary_fields(checkpoint@.summary->0->0)->0.next_epoch_committee is Some
            &&& current@.epoch < u64::MAX
        },
        next is Ok ==> {
            &&& next->Ok_0@.epoch == current@.epoch + 1
            &&& forall|name: AuthorityName| #[trigger]
                stake_of(next->Ok_0@.members, name) == stake_of(
                    summary_fields(checkpoint@.summary->0->0)->0.next_epoch_committee->0,
                    name,
                )
        },
{
    law_served_transition(current@, checkpoint@, last_checkpoint);
    law_served_summary(checkpoint@);
}

/// A walk starts at the trusted committee, and only where the target can be
/// reached.
pub proof fn law_starting_a_walk(
    trusted: Committee,
    target: EpochId,
    node: EpochId,
    walk: Result<CommitteeWalk, WalkError>,
)
    requires
        call_ensures(CommitteeWalk::start, (trusted, target, node), walk),
    ensures
        target < trusted@.epoch ==> walk is Err && walk->Err_0
            == (WalkError::TargetBeforeTrusted { target, trusted: trusted@.epoch }),
        trusted@.epoch <= target && node < target ==> walk is Err && walk->Err_0
            == (WalkError::TargetAheadOfNode { target, node }),
        trusted@.epoch <= target <= node ==> {
            &&& walk is Ok
            &&& walk->Ok_0@.committees == seq![trusted@]
            &&& walk->Ok_0@.summaries.len() == 0
            &&& walk->Ok_0@.target_epoch == target
        },
{
}

/// A walk asks for the epoch it has reached until it is at its target, and then
/// gives the committee it has reached.
pub proof fn law_asking_and_finishing(
    walk: &CommitteeWalk,
    pending: Option<EpochId>,
    finished: CommitteeWalk,
    committee: Committee,
)
    ensures
        call_ensures(CommitteeWalk::pending_epoch, (walk,), pending) && walk@.committees.len() > 0
            ==> {
            let epoch = walk@.committees[walk@.committees.len() - 1].epoch;
            &&& epoch < walk@.target_epoch ==> pending == Some(epoch)
            &&& walk@.target_epoch <= epoch ==> pending is None
        },
        call_ensures(CommitteeWalk::into_committee, (finished,), committee) ==> {
            &&& finished@.committees.len() == finished@.summaries.len() + 1
            &&& committee@ == finished@.committees[finished@.committees.len() - 1]
            &&& committee@.epoch <= finished@.target_epoch
        },
{
}

/// A step of a walk is taken exactly where a quorum of the committee reached signed
/// the bytes served. It adds the committee that these bytes name, each validator
/// with its own stake, and changes nothing passed before.
pub proof fn law_advancing_a_walk(
    walk: CommitteeWalk,
    last_checkpoint: u64,
    checkpoint: &CheckpointResponse,
    advanced: Result<CommitteeWalk, WalkError>,
)
    requires
        walk@.committees.len() > 0,
        call_ensures(CommitteeWalk::advance, (walk, last_checkpoint, checkpoint), advanced),
    ensures
        ({
            let current = walk@.committees[walk@.committees.len() - 1];
            &&& advanced is Ok <==> {
                &&& checkpoint@.summary is Some
                &&& checkpoint@.summary->0 is Some
                &&& checkpoint@.signature is Some
                &&& checkpoint@.signature->0 is Some
                &&& summary_digest_of(checkpoint@.summary->0->0) is Some
                &&& summary_fields(checkpoint@.summary->0->0) is Some
                &&& summary_fields(checkpoint@.summary->0->0)->0.epoch == current.epoch
                &&& signature_epoch_of(checkpoint@.signature->0->0) == Some(current.epoch)
                &&& quorum_signed(
                    current.epoch,
                    current.members,
                    checkpoint@.summary->0->0,
                    checkpoint@.signature->0->0,
                )
                &&& summary_fields(checkpoint@.summary->0->0)->0.next_epoch_committee is Some
                &&& current.epoch < u64::MAX
            }
            &&& advanced is Err ==> transition_failure(current, checkpoint@, last_checkpoint)
                == Some(advanced->Err_0)
            &&& advanced is Ok ==> {
                let next = advanced->Ok_0@.committees[walk@.committees.len() as int];
                let bcs = checkpoint@.summary->0->0;
                let signature = checkpoint@.signature->0->0;
                let passed = advanced->Ok_0@.summaries[walk@.summaries.len() as int];
                &&& advanced->Ok_0@.committees == walk@.committees.push(next)
                &&& advanced->Ok_0@.summaries == walk@.summaries.push(passed)
                &&& advanced->Ok_0@.target_epoch == walk@.target_epoch
                &&& passed.bcs == bcs
                &&& passed.signature == signature
                &&& next.epoch == current.epoch + 1
                &&& forall|name: AuthorityName| #[trigger]
                    stake_of(next.members, name) == stake_of(
                        summary_fields(bcs)->0.next_epoch_committee->0,
                        name,
                    )
            }
        }),
{
    let current = walk@.committees[walk@.committees.len() - 1];
    law_served_transition(current, checkpoint@, last_checkpoint);
    law_served_summary(checkpoint@);
}

/// Each error is told in the words that are kept for it.
pub proof fn law_telling_errors(
    certification: &CertificationError,
    verification: &VerifyError,
    response: &ResponseError,
    walk: &WalkError,
    text: String,
)
    ensures
        call_ensures(CertificationError::message, (certification,), text) ==> text@
            == certification_text(*certification),
        call_ensures(VerifyError::message, (verification,), text) ==> text@ == verify_text(
            *verification,
        ),
        call_ensures(ResponseError::message, (response,), text) ==> text@ == response_text(
            *response,
        ),
        call_ensures(WalkError::message, (walk,), text) ==> text@ == walk_text(*walk),
{
}

/// A digest is read as the SDK reads it, a number is written in decimal, and a
/// report says what it is about.
pub proof fn law_reading_and_reporting(
    text: &str,
    digest: Result<Digest, String>,
    number: u128,
    path: &str,
    summary: &CertifiedCheckpointSummary,
    committee: &Committee,
    epoch: EpochId,
    report: String,
)
    ensures
        call_ensures(parse_transaction_digest, (text,), digest) ==> if digest_from_base58(
            text@,
        ) is Some {
            digest is Ok && digest->Ok_0 == digest_from_base58(text@)->0
        } else {
            digest is Err && digest->Err_0@ == "failed to parse transaction digest "@ + text@
        },
        call_ensures(decimal_text, (number,), report) ==> report@ == decimal(number as nat),
        call_ensures(created_proof_report, (path, summary), report) ==> report@
            =~= "created proof "@ + path@ + "\ncheckpoint: "@ + digest_to_base58(summary@.digest)
            + "\ncheckpoint sequence number: "@ + decimal(summary@.sequence_number as nat)
            + "\nepoch: "@ + decimal(summary@.epoch as nat),
        call_ensures(verified_proof_report, (path, summary, committee), report) ==> report@
            =~= "verified proof "@ + path@ + "\ncheckpoint: "@ + digest_to_base58(summary@.digest)
            + "\ncheckpoint sequence number: "@ + decimal(summary@.sequence_number as nat)
            + "\nepoch: "@ + decimal(summary@.epoch as nat) + "\ncommittee epoch: "@ + decimal(
            committee@.epoch as nat,
        ),
        call_ensures(fetched_committee_report, (path, committee), report) ==> report@
            == "fetched committee "@ + path@ + "\nepoch: "@ + decimal(committee@.epoch as nat)
            + "\nvoting rights: "@ + decimal(total_stake(committee@.members)),
        call_ensures(walked_committee_report, (path, epoch, committee), report) ==> report@
            == "verified committee "@ + path@ + "\ntrusted epoch: "@ + decimal(epoch as nat)
            + "\ntarget epoch: "@ + decimal(committee@.epoch as nat) + "\nvoting rights: "@
            + decimal(total_stake(committee@.members)),
{
}

} // verus!
