//! What each operation does, said of its inputs and results and of what the SDK
//! computes.
//!
//! The contracts speak of verdicts and of served or decoded values. The laws here
//! say what these are, case by case, without those words.

use vstd::prelude::*;

use crate::bytes::Digest;
use crate::checkpoint::{
    certification, contents_from_bcs, signatures_verdict, signatures_verdict_given,
    summary_from_bcs, ContentsView, ExecutionDigests, SummaryView,
};
use crate::cli::checkpoint_lines;
use crate::committee::{
    precedes, smaller_at, stake_of, total_stake, AuthorityName, CommitteeView, EpochId, StakeUnit,
    VotingRights,
};
use crate::error::{
    certification_text, response_text, verify_text, walk_text, CertificationError, DecodeError,
    ResponseError, VerifyError, WalkError,
};
use crate::laws::{fails_first, law_first_failure};
use crate::object::{object_from_bcs, ObjectRef, ObjectView};
use crate::proofs::{
    committee_verdict, event_verdict, event_verdicts, events_verdict, evidence_verdict,
    no_targets, object_verdict, object_verdicts, objects_verdict, proof_verdict,
    transaction_verdict, verdict_given, Proof, ProofTargets, ProofView, TransactionProof,
    TransactionProofView,
};
use crate::response::{
    holds_committee, is_served_committee, messages_view, payloads, served_contents,
    served_effects, served_events, served_proof, served_summary, served_transaction,
    CheckpointResponse, CheckpointResponseView, CommitteeMessage, CommitteeMessageView,
    EventsMessage, ExecutedTransaction, ExecutedTransactionView, MemberMessage, Message,
};
use crate::sdk::{
    changed_objects_of, contents_digest_of, contents_transactions_of, digest_to_base58,
    effects_digest_of, effects_fields_of, events_digest_of, is_user_signature,
    object_reference_of, quorum_signed, signature_epoch_of, summary_digest_of, summary_fields,
    transaction_digest_of, SummaryFields, SummaryFieldsView,
};
use crate::text::{decimal, digit};
use crate::transaction::{
    effects_from_bcs, events_from_bcs, transaction_from_bcs, Event, EventID,
};
use crate::views::{encodings, option_view, result_view};
use crate::walk::{
    authenticates, lineage, names_next, next_committee_failure, reach_verdict,
    transition_failure, transition_failure_given, WalkView,
};

verus! {

// What values are.

/// The view of an optional value, or of an outcome, is that of the value in it.
pub proof fn law_views<T: View, E>(value: Option<T>, outcome: Result<T, E>)
    ensures
        match value {
            Some(value_in) => option_view(value) == Some(value_in@),
            None => option_view(value) is None,
        },
        match outcome {
            Ok(value_in) => result_view(outcome) == Ok::<_, E>(value_in@),
            Err(error) => result_view(outcome) == Err::<T::V, E>(error),
        },
{
}

/// The byte strings of a list are those of its items, one for each, in order.
pub proof fn law_encodings<T: View<V = Seq<u8>>>(items: Seq<T>)
    ensures
        encodings(items).len() == items.len(),
        forall|i: int| 0 <= i < items.len() ==> encodings(items)[i] == (#[trigger] items[i])@,
{
}

/// An event is its bytes.
pub proof fn law_event_is_its_bytes(event: Event)
    ensures
        event@ == event.bcs@,
{
}

/// What is read from a summary is seen in full.
pub proof fn law_summary_fields_view(fields: SummaryFields)
    ensures
        fields@.epoch == fields.epoch,
        fields@.sequence_number == fields.sequence_number,
        fields@.contents_digest == fields.contents_digest,
        match fields.next_epoch_committee {
            Some(rights) => fields@.next_epoch_committee == Some(rights@),
            None => fields@.next_epoch_committee is None,
        },
{
}

/// A proof is its targets, its summary and its evidence.
pub proof fn law_proof_view(proof: Proof, targets: ProofTargets, evidence: TransactionProof)
    ensures
        proof@.targets == proof.targets@,
        proof@.checkpoint_summary == proof.checkpoint_summary@,
        match proof.contents_proof {
            Some(presented) => proof@.contents_proof == Some(presented@),
            None => proof@.contents_proof is None,
        },
        targets@.objects.len() == targets.objects@.len(),
        forall|i: int|
            0 <= i < targets.objects@.len() ==> targets@.objects[i].0 == (
            #[trigger] targets.objects@[i]).0 && targets@.objects[i].1 == targets.objects@[i].1@,
        targets@.events.len() == targets.events@.len(),
        forall|i: int|
            0 <= i < targets.events@.len() ==> targets@.events[i].0 == (
            #[trigger] targets.events@[i]).0 && targets@.events[i].1
                == targets.events@[i].1.bcs@,
        match targets.committee {
            Some(committee) => targets@.committee == Some(committee@),
            None => targets@.committee is None,
        },
        evidence@.checkpoint_contents == evidence.checkpoint_contents@,
        evidence@.transaction == evidence.transaction@,
        evidence@.effects == evidence.effects@,
        match evidence.events {
            Some(events) => evidence@.events == Some(events@),
            None => evidence@.events is None,
        },
{
}

/// A message is the bytes it carries, if it carries any.
pub proof fn law_message_view(message: Message, messages: Seq<Message>)
    ensures
        match message.bcs {
            Some(bcs) => message@ == Some(bcs@),
            None => message@ is None,
        },
        messages_view(messages).len() == messages.len(),
        forall|i: int|
            0 <= i < messages.len() ==> messages_view(messages)[i] == (#[trigger] messages[i])@,
{
}

/// Replies are seen in full.
pub proof fn law_response_views(
    checkpoint: CheckpointResponse,
    events: EventsMessage,
    transaction: ExecutedTransaction,
)
    ensures
        match checkpoint.summary {
            Some(message) => checkpoint@.summary == Some(message@),
            None => checkpoint@.summary is None,
        },
        match checkpoint.signature {
            Some(message) => checkpoint@.signature == Some(message@),
            None => checkpoint@.signature is None,
        },
        match checkpoint.contents {
            Some(message) => checkpoint@.contents == Some(message@),
            None => checkpoint@.contents is None,
        },
        match events.events {
            Some(messages) => events@ == Some(messages_view(messages@)),
            None => events@ is None,
        },
        match transaction.transaction {
            Some(message) => transaction@.transaction == Some(message@),
            None => transaction@.transaction is None,
        },
        match transaction.signatures {
            Some(messages) => transaction@.signatures == Some(messages_view(messages@)),
            None => transaction@.signatures is None,
        },
        match transaction.effects {
            Some(message) => transaction@.effects == Some(message@),
            None => transaction@.effects is None,
        },
        match transaction.events {
            Some(message) => transaction@.events == Some(message@),
            None => transaction@.events is None,
        },
        transaction@.checkpoint == transaction.checkpoint,
{
}

/// A served committee is seen in full.
pub proof fn law_committee_message_view(committee: CommitteeMessage, member: MemberMessage)
    ensures
        committee@.epoch == committee.epoch,
        match committee.members {
            Some(members) => {
                &&& committee@.members is Some
                &&& committee@.members->0.len() == members@.len()
                &&& forall|i: int|
                    0 <= i < members@.len() ==> committee@.members->0[i] == (
                    #[trigger] members@[i])@
            },
            None => committee@.members is None,
        },
        match member.public_key {
            Some(public_key) => member@.0 == Some(public_key@),
            None => member@.0 is None,
        },
        member@.1 == member.weight,
{
}

// Committees.

/// A validator has the stake of its last entry, and none where it has no entry.
pub proof fn law_last_entry_counts(rights: VotingRights, name: AuthorityName)
    ensures
        match stake_of(rights, name) {
            Some(stake) => exists|i: int|
                {
                    &&& 0 <= i < rights.len()
                    &&& (#[trigger] rights[i]) == (name, stake)
                    &&& forall|j: int| i < j < rights.len() ==> (#[trigger] rights[j]).0 != name
                },
            None => forall|i: int| 0 <= i < rights.len() ==> (#[trigger] rights[i]).0 != name,
        },
    decreases rights.len(),
{
    if rights.len() > 0 {
        let last = rights.len() - 1;
        let front = rights.drop_last();
        assert(rights[last] == rights.last());
        if rights.last().0 != name {
            law_last_entry_counts(front, name);
            match stake_of(front, name) {
                Some(stake) => {
                    let i = choose|i: int|
                        {
                            &&& 0 <= i < front.len()
                            &&& (#[trigger] front[i]) == (name, stake)
                            &&& forall|j: int|
                                i < j < front.len() ==> (#[trigger] front[j]).0 != name
                        };
                    assert(rights[i] == (name, stake));
                    assert forall|j: int| i < j < rights.len() implies (
                    #[trigger] rights[j]).0 != name by {
                        if j < last {
                            assert(front[j].0 != name);
                        }
                    }
                },
                None => {
                    assert forall|i: int| 0 <= i < rights.len() implies (
                    #[trigger] rights[i]).0 != name by {
                        if i < last {
                            assert(front[i].0 != name);
                        }
                    }
                },
            }
        } else {
            assert(rights[last] == (name, rights.last().1));
        }
    }
}

/// Names are ordered by the first byte in which they differ.
pub proof fn law_names_are_ordered_by_bytes(a: AuthorityName, b: AuthorityName)
    ensures
        precedes(a, b) <==> exists|k: int|
            {
                &&& 0 <= k < 96
                &&& (#[trigger] a@[k]) < b@[k]
                &&& forall|j: int| 0 <= j < k ==> (#[trigger] a@[j]) == b@[j]
            },
{
    if precedes(a, b) {
        let k = choose|k: int| smaller_at(a, b, k);
        assert(a@[k] < b@[k]);
        assert forall|j: int| 0 <= j < k implies (#[trigger] a@[j]) == b@[j] by {
            assert(a[j] == b[j]);
        }
    }
    if exists|k: int|
        {
            &&& 0 <= k < 96
            &&& (#[trigger] a@[k]) < b@[k]
            &&& forall|j: int| 0 <= j < k ==> (#[trigger] a@[j]) == b@[j]
        } {
        let k = choose|k: int|
            {
                &&& 0 <= k < 96
                &&& (#[trigger] a@[k]) < b@[k]
                &&& forall|j: int| 0 <= j < k ==> (#[trigger] a@[j]) == b@[j]
            };
        assert forall|j: int| 0 <= j < k implies a[j] == b[j] by {
            assert(a@[j] == b@[j]);
        }
        assert(smaller_at(a, b, k));
    }
}

/// No stake adds up to none, and each entry adds its own.
pub proof fn law_stakes_add_up(rights: VotingRights, name: AuthorityName, stake: StakeUnit)
    ensures
        total_stake(Seq::empty()) == 0,
        total_stake(rights.push((name, stake))) == total_stake(rights) + stake,
{
    let more = rights.push((name, stake));
    assert(more.drop_last() =~= rights);
}

/// A committee of an epoch gives each validator the stake that the rights give
/// it, and lists the validators in strictly ascending order.
pub proof fn law_committee_of(committee: CommitteeView, epoch: EpochId, rights: VotingRights)
    ensures
        committee.is_committee_of(epoch, rights) <==> {
            &&& committee.epoch == epoch
            &&& forall|name: AuthorityName| #[trigger]
                stake_of(committee.members, name) == stake_of(rights, name)
            &&& forall|i: int, j: int|
                0 <= i < j < committee.members.len() ==> precedes(
                    #[trigger] committee.members[i].0,
                    #[trigger] committee.members[j].0,
                )
        },
{
}

// Decoding.

/// A decoded summary says what the SDK reads in its bytes, and nothing is left
/// out: epoch, height, contents digest, and the whole next committee.
pub proof fn law_summary_is_what_is_encoded(bcs: Seq<u8>, signature: Seq<u8>)
    ensures
        match summary_from_bcs(bcs, signature) {
            Ok(summary) => {
                &&& summary.bcs == bcs
                &&& summary.signature == signature
                &&& summary_digest_of(bcs) == Some(summary.digest)
                &&& summary_fields(bcs) == Some(
                    SummaryFieldsView {
                        epoch: summary.epoch,
                        sequence_number: summary.sequence_number,
                        contents_digest: summary.contents_digest,
                        next_epoch_committee: summary.next_epoch_committee,
                    },
                )
                &&& signature_epoch_of(signature) == Some(summary.signature_epoch)
            },
            Err(DecodeError::Summary) => summary_fields(bcs) is None || summary_digest_of(
                bcs,
            ) is None,
            Err(DecodeError::ValidatorSignature) => {
                &&& summary_fields(bcs) is Some
                &&& summary_digest_of(bcs) is Some
                &&& signature_epoch_of(signature) is None
            },
            Err(_) => false,
        },
{
}

/// Decoded contents list exactly the transactions that the SDK reads in their
/// bytes.
pub proof fn law_contents_are_what_is_encoded(bcs: Seq<u8>)
    ensures
        match contents_from_bcs(bcs) {
            Ok(contents) => {
                &&& contents.bcs == bcs
                &&& contents_digest_of(bcs) == Some(contents.digest)
                &&& contents_transactions_of(bcs) == Some(contents.transactions)
            },
            Err(error) => {
                &&& error == DecodeError::Contents
                &&& contents_digest_of(bcs) is None || contents_transactions_of(bcs) is None
            },
        },
{
}

/// A decoded transaction carries exactly the signatures it was given, each of
/// which is a user signature.
pub proof fn law_transaction_is_what_is_encoded(bcs: Seq<u8>, signatures: Seq<Seq<u8>>)
    ensures
        match transaction_from_bcs(bcs, signatures) {
            Ok(transaction) => {
                &&& transaction.bcs == bcs
                &&& transaction.signatures == signatures
                &&& transaction_digest_of(bcs) == Some(transaction.digest)
                &&& forall|i: int|
                    0 <= i < signatures.len() ==> is_user_signature(#[trigger] signatures[i])
            },
            Err(DecodeError::Transaction) => transaction_digest_of(bcs) is None,
            Err(DecodeError::UserSignature) => {
                &&& transaction_digest_of(bcs) is Some
                &&& exists|i: int|
                    0 <= i < signatures.len() && !is_user_signature(#[trigger] signatures[i])
            },
            Err(_) => false,
        },
{
}

/// Decoded effects hold exactly the digests and the changed objects that the SDK
/// reads in their bytes.
pub proof fn law_effects_are_what_is_encoded(bcs: Seq<u8>)
    ensures
        match effects_from_bcs(bcs) {
            Ok(effects) => {
                &&& effects.bcs == bcs
                &&& effects_fields_of(bcs) == Some(
                    (effects.digests.transaction, effects.events_digest),
                )
                &&& effects_digest_of(bcs) == Some(effects.digests.effects)
                &&& changed_objects_of(bcs) == Some(effects.changed_objects)
            },
            Err(error) => {
                &&& error == DecodeError::Effects
                &&& effects_fields_of(bcs) is None || effects_digest_of(bcs) is None
                    || changed_objects_of(bcs) is None
            },
        },
{
}

/// Decoded events are exactly those given, with the digest of the whole list.
pub proof fn law_events_are_what_is_encoded(events: Seq<Seq<u8>>)
    ensures
        match events_from_bcs(events) {
            Ok(decoded) => decoded.events == events && events_digest_of(events) == Some(
                decoded.digest,
            ),
            Err(error) => error == DecodeError::Events && events_digest_of(events) is None,
        },
{
}

/// A decoded object has the reference that the SDK computes of its bytes.
pub proof fn law_object_is_what_is_encoded(bcs: Seq<u8>)
    ensures
        match object_from_bcs(bcs) {
            Ok(object) => object.bcs == bcs && object_reference_of(bcs) == Some(object.reference),
            Err(error) => error == DecodeError::Object && object_reference_of(bcs) is None,
        },
{
}

// Certification.

/// A signature is good where the three epochs are one and a quorum signed. Else
/// the first of these that fails is told, with the epochs that differ.
pub proof fn law_judged_signatures(
    summary_epoch: EpochId,
    signature_epoch: EpochId,
    committee_epoch: EpochId,
    signed: bool,
)
    ensures
        match signatures_verdict_given(summary_epoch, signature_epoch, committee_epoch, signed) {
            Ok(()) => summary_epoch == signature_epoch && signature_epoch == committee_epoch
                && signed,
            Err(CertificationError::SummaryEpoch { summary, signature }) => {
                &&& summary == summary_epoch
                &&& signature == signature_epoch
                &&& summary_epoch != signature_epoch
            },
            Err(CertificationError::CommitteeEpoch { committee, signature }) => {
                &&& committee == committee_epoch
                &&& signature == signature_epoch
                &&& summary_epoch == signature_epoch
                &&& signature_epoch != committee_epoch
            },
            Err(CertificationError::Signature) => {
                &&& summary_epoch == signature_epoch
                &&& signature_epoch == committee_epoch
                &&& !signed
            },
            Err(CertificationError::ContentsDigest) => false,
        },
{
}

/// A committee certifies a summary of its own epoch that a quorum of it signed in
/// that epoch, and no other.
pub proof fn law_certified_by_signatures(committee: CommitteeView, summary: SummaryView)
    ensures
        signatures_verdict(committee, summary) is Ok <==> {
            &&& summary.epoch == committee.epoch
            &&& summary.signature_epoch == committee.epoch
            &&& quorum_signed(
                committee.epoch,
                committee.members,
                summary.bcs,
                summary.signature,
            )
        },
        signatures_verdict(committee, summary) == signatures_verdict_given(
            summary.epoch,
            summary.signature_epoch,
            committee.epoch,
            quorum_signed(committee.epoch, committee.members, summary.bcs, summary.signature),
        ),
{
}

/// A checkpoint is certified where its summary is and, if contents are given, the
/// summary commits to them.
pub proof fn law_certified_with_contents(
    committee: CommitteeView,
    summary: SummaryView,
    contents: Option<ContentsView>,
)
    ensures
        match certification(committee, summary, contents) {
            Ok(()) => {
                &&& summary.epoch == committee.epoch
                &&& summary.signature_epoch == committee.epoch
                &&& quorum_signed(
                    committee.epoch,
                    committee.members,
                    summary.bcs,
                    summary.signature,
                )
                &&& contents is Some ==> contents->0.digest == summary.contents_digest
            },
            Err(CertificationError::ContentsDigest) => {
                &&& summary.epoch == committee.epoch
                &&& summary.signature_epoch == committee.epoch
                &&& quorum_signed(
                    committee.epoch,
                    committee.members,
                    summary.bcs,
                    summary.signature,
                )
                &&& contents is Some
                &&& contents->0.digest != summary.contents_digest
            },
            Err(error) => signatures_verdict(committee, summary) == Err::<(), _>(error),
        },
{
}

// Verdicts on proofs.

/// No targets are no objects, no events and no committee.
pub proof fn law_no_targets()
    ensures
        no_targets().objects.len() == 0,
        no_targets().events.len() == 0,
        no_targets().committee is None,
{
}

/// A committee target holds where the summary names it: the epoch is the next
/// one, and each validator has the stake that the summary gives it.
pub proof fn law_committee_target_verdict(summary: SummaryView, expected: Option<CommitteeView>)
    ensures
        match committee_verdict(summary, expected) {
            Ok(()) => expected is Some ==> {
                &&& summary.next_epoch_committee is Some
                &&& expected->0.epoch == summary.epoch + 1
                &&& forall|name: AuthorityName| #[trigger]
                    stake_of(expected->0.members, name) == stake_of(
                        summary.next_epoch_committee->0,
                        name,
                    )
                &&& forall|i: int, j: int|
                    0 <= i < j < expected->0.members.len() ==> precedes(
                        #[trigger] expected->0.members[i].0,
                        #[trigger] expected->0.members[j].0,
                    )
            },
            Err(VerifyError::NoEndOfEpochCommittee) => {
                &&& expected is Some
                &&& summary.next_epoch_committee is None
            },
            Err(VerifyError::NextEpochOverflow) => {
                &&& expected is Some
                &&& summary.next_epoch_committee is Some
                &&& summary.epoch == u64::MAX
            },
            Err(VerifyError::CommitteeMismatch) => {
                &&& expected is Some
                &&& summary.next_epoch_committee is Some
                &&& summary.epoch < u64::MAX
                &&& {
                    ||| expected->0.epoch != summary.epoch + 1
                    ||| exists|name: AuthorityName| #[trigger]
                        stake_of(expected->0.members, name) != stake_of(
                            summary.next_epoch_committee->0,
                            name,
                        )
                    ||| exists|i: int, j: int|
                        0 <= i < j < expected->0.members.len() && !precedes(
                            #[trigger] expected->0.members[i].0,
                            #[trigger] expected->0.members[j].0,
                        )
                }
            },
            Err(_) => false,
        },
{
}

/// Evidence is missing only where there is none and objects or events need it.
pub proof fn law_missing_evidence(proof: ProofView)
    ensures
        match evidence_verdict(proof) {
            Ok(()) => {
                ||| proof.contents_proof is Some
                ||| proof.targets.objects.len() == 0 && proof.targets.events.len() == 0
            },
            Err(error) => {
                &&& error == VerifyError::ContentsProofMissing
                &&& proof.contents_proof is None
                &&& proof.targets.objects.len() > 0 || proof.targets.events.len() > 0
            },
        },
{
}

/// Evidence holds where the effects are of the transaction, the contents list the
/// execution among all that they list, and the events presented have the digest
/// that the effects record; where the effects record none, none are presented.
pub proof fn law_evidence(proof: TransactionProofView)
    ensures
        match transaction_verdict(proof) {
            Ok(()) => {
                &&& proof.transaction.digest == proof.effects.digests.transaction
                &&& exists|i: int|
                    0 <= i < proof.checkpoint_contents.transactions.len() && (
                    #[trigger] proof.checkpoint_contents.transactions[i]) == proof.effects.digests
                &&& proof.events is Some <==> proof.effects.events_digest is Some
                &&& proof.events is Some ==> proof.effects.events_digest->0
                    == proof.events->0.digest
            },
            Err(VerifyError::TransactionDigestMismatch) => proof.transaction.digest
                != proof.effects.digests.transaction,
            Err(VerifyError::TransactionNotInCheckpoint) => {
                &&& proof.transaction.digest == proof.effects.digests.transaction
                &&& forall|i: int|
                    0 <= i < proof.checkpoint_contents.transactions.len() ==> (
                    #[trigger] proof.checkpoint_contents.transactions[i]) != proof.effects.digests
            },
            Err(VerifyError::EventsDigestMismatch) => {
                &&& proof.transaction.digest == proof.effects.digests.transaction
                &&& proof.checkpoint_contents.transactions.contains(proof.effects.digests)
                &&& {
                    ||| proof.events is Some && proof.effects.events_digest is None
                    ||| proof.events is None && proof.effects.events_digest is Some
                    ||| proof.events is Some && proof.effects.events_digest
                        != Some(proof.events->0.digest)
                }
            },
            Err(_) => false,
        },
{
}

/// An event target holds where the transaction emitted this event at this place.
pub proof fn law_event_target(
    transaction: Digest,
    events: Seq<Seq<u8>>,
    id: EventID,
    event: Seq<u8>,
)
    ensures
        match event_verdict(transaction, events, id, event) {
            Ok(()) => {
                &&& id.tx_digest == transaction
                &&& id.event_seq < events.len()
                &&& events[id.event_seq as int] == event
            },
            Err(VerifyError::EventOfOtherTransaction) => id.tx_digest != transaction,
            Err(VerifyError::EventOutOfBounds) => {
                &&& id.tx_digest == transaction
                &&& events.len() <= id.event_seq
            },
            Err(VerifyError::EventMismatch) => {
                &&& id.tx_digest == transaction
                &&& id.event_seq < events.len()
                &&& events[id.event_seq as int] != event
            },
            Err(_) => false,
        },
{
}

/// An object target holds where the reference is the computed one and is among
/// all that were changed.
pub proof fn law_object_target(
    changed: Seq<ObjectRef>,
    reference: ObjectRef,
    computed: ObjectRef,
)
    ensures
        match object_verdict(changed, reference, computed) {
            Ok(()) => {
                &&& reference == computed
                &&& exists|i: int| 0 <= i < changed.len() && (#[trigger] changed[i]) == reference
            },
            Err(VerifyError::ObjectReferenceMismatch) => reference != computed,
            Err(VerifyError::ObjectNotFound) => {
                &&& reference == computed
                &&& forall|i: int|
                    0 <= i < changed.len() ==> (#[trigger] changed[i]) != reference
            },
            Err(_) => false,
        },
{
}

/// Event targets hold where each of them was emitted. Where events are presented,
/// the first target that fails is told, by what is wrong with it.
pub proof fn law_event_targets(targets: Seq<(EventID, Seq<u8>)>, proof: TransactionProofView)
    ensures
        match events_verdict(targets, proof) {
            Ok(()) => {
                &&& targets.len() > 0 ==> proof.events is Some
                &&& forall|i: int|
                    0 <= i < targets.len() ==> {
                        let (id, event) = #[trigger] targets[i];
                        &&& id.tx_digest == proof.effects.digests.transaction
                        &&& id.event_seq < proof.events->0.events.len()
                        &&& proof.events->0.events[id.event_seq as int] == event
                    }
            },
            Err(VerifyError::EventsMissing) => targets.len() > 0 && proof.events is None,
            Err(error) => {
                &&& proof.events is Some
                &&& exists|i: int|
                    {
                        let (id, event) = #[trigger] targets[i];
                        let events = proof.events->0.events;
                        &&& 0 <= i < targets.len()
                        &&& forall|j: int|
                            0 <= j < i ==> {
                                let (id, event) = #[trigger] targets[j];
                                &&& id.tx_digest == proof.effects.digests.transaction
                                &&& id.event_seq < events.len()
                                &&& events[id.event_seq as int] == event
                            }
                        &&& match error {
                            VerifyError::EventOfOtherTransaction => id.tx_digest
                                != proof.effects.digests.transaction,
                            VerifyError::EventOutOfBounds => {
                                &&& id.tx_digest == proof.effects.digests.transaction
                                &&& events.len() <= id.event_seq
                            },
                            VerifyError::EventMismatch => {
                                &&& id.tx_digest == proof.effects.digests.transaction
                                &&& id.event_seq < events.len()
                                &&& events[id.event_seq as int] != event
                            },
                            _ => false,
                        }
                    }
            },
        },
{
    if let Some(events) = proof.events {
        let transaction = proof.effects.digests.transaction;
        let verdicts = event_verdicts(transaction, events.events, targets);
        law_first_failure(verdicts);
        assert(forall|i: int|
            0 <= i < targets.len() ==> verdicts[i] == event_verdict(
                transaction,
                events.events,
                (#[trigger] targets[i]).0,
                targets[i].1,
            ));
        match events_verdict(targets, proof) {
            Ok(()) => {
                assert forall|i: int| 0 <= i < targets.len() implies {
                    let (id, event) = #[trigger] targets[i];
                    &&& id.tx_digest == transaction
                    &&& id.event_seq < events.events.len()
                    &&& events.events[id.event_seq as int] == event
                } by {
                    assert(verdicts[i] is Ok);
                }
            },
            Err(error) => {
                let i = choose|i: int| fails_first(verdicts, i, error);
                let (id, event) = targets[i];
                law_event_target(transaction, events.events, id, event);
                assert forall|j: int| 0 <= j < i implies {
                    let (id, event) = #[trigger] targets[j];
                    &&& id.tx_digest == transaction
                    &&& id.event_seq < events.events.len()
                    &&& events.events[id.event_seq as int] == event
                } by {
                    assert(verdicts[j] is Ok);
                }
            },
        }
    }
}

/// Object targets hold where each of them was written. Else the first that fails
/// is told, by what is wrong with it.
pub proof fn law_object_targets(
    targets: Seq<(ObjectRef, ObjectView)>,
    proof: TransactionProofView,
)
    ensures
        match objects_verdict(targets, proof) {
            Ok(()) => forall|i: int|
                0 <= i < targets.len() ==> {
                    let (reference, object) = #[trigger] targets[i];
                    &&& reference == object.reference
                    &&& proof.effects.changed_objects.contains(reference)
                },
            Err(error) => exists|i: int|
                {
                    let (reference, object) = #[trigger] targets[i];
                    &&& 0 <= i < targets.len()
                    &&& forall|j: int|
                        0 <= j < i ==> {
                            let (reference, object) = #[trigger] targets[j];
                            &&& reference == object.reference
                            &&& proof.effects.changed_objects.contains(reference)
                        }
                    &&& match error {
                        VerifyError::ObjectReferenceMismatch => reference != object.reference,
                        VerifyError::ObjectNotFound => {
                            &&& reference == object.reference
                            &&& !proof.effects.changed_objects.contains(reference)
                        },
                        _ => false,
                    }
                },
        },
{
    let changed = proof.effects.changed_objects;
    let verdicts = object_verdicts(changed, targets);
    law_first_failure(verdicts);
    assert(forall|i: int|
        0 <= i < targets.len() ==> verdicts[i] == object_verdict(
            changed,
            (#[trigger] targets[i]).0,
            targets[i].1.reference,
        ));
    match objects_verdict(targets, proof) {
        Ok(()) => {
            assert forall|i: int| 0 <= i < targets.len() implies {
                let (reference, object) = #[trigger] targets[i];
                &&& reference == object.reference
                &&& changed.contains(reference)
            } by {
                assert(verdicts[i] is Ok);
            }
        },
        Err(error) => {
            let i = choose|i: int| fails_first(verdicts, i, error);
            let (reference, object) = targets[i];
            law_object_target(changed, reference, object.reference);
            assert forall|j: int| 0 <= j < i implies {
                let (reference, object) = #[trigger] targets[j];
                &&& reference == object.reference
                &&& changed.contains(reference)
            } by {
                assert(verdicts[j] is Ok);
            }
        },
    }
}

/// A proof is checked for certification, committee target, presence of evidence,
/// transaction, events and objects; the first check that fails is told.
pub proof fn law_checks_come_in_order(
    certified: Result<(), CertificationError>,
    proof: ProofView,
)
    ensures
        ({
            let committee = committee_verdict(proof.checkpoint_summary, proof.targets.committee);
            let presence = evidence_verdict(proof);
            let transaction = transaction_verdict(proof.contents_proof->0);
            let events = events_verdict(proof.targets.events, proof.contents_proof->0);
            let objects = objects_verdict(proof.targets.objects, proof.contents_proof->0);
            match verdict_given(certified, proof) {
                Ok(()) => {
                    &&& certified is Ok
                    &&& committee is Ok
                    &&& presence is Ok
                    &&& proof.contents_proof is Some ==> transaction is Ok && events is Ok
                        && objects is Ok
                },
                Err(error) => {
                    ||| certified is Err && error == VerifyError::Certification(certified->Err_0)
                    ||| certified is Ok && committee == Err::<(), _>(error)
                    ||| certified is Ok && committee is Ok && presence == Err::<(), _>(error)
                    ||| {
                        &&& certified is Ok
                        &&& committee is Ok
                        &&& presence is Ok
                        &&& proof.contents_proof is Some
                        &&& {
                            ||| transaction == Err::<(), _>(error)
                            ||| transaction is Ok && events == Err::<(), _>(error)
                            ||| transaction is Ok && events is Ok && objects == Err::<(), _>(error)
                        }
                    }
                },
            }
        }),
{
}

/// What is verified first is the certification of the summary and of the contents
/// presented; the rest does not depend on the committee.
pub proof fn law_certification_comes_first(committee: CommitteeView, proof: ProofView)
    ensures
        ({
            let contents = match proof.contents_proof {
                Some(evidence) => Some(evidence.checkpoint_contents),
                None => None,
            };
            match certification(committee, proof.checkpoint_summary, contents) {
                Ok(()) => proof_verdict(committee, proof) == verdict_given(Ok(()), proof),
                Err(error) => proof_verdict(committee, proof) == Err::<(), _>(
                    VerifyError::Certification(error),
                ),
            }
        }),
{
}

/// A proof of decoded parts holds against a committee exactly where
/// - the summary is of the committee's epoch, and so is its signature, which is
///   one of a quorum of the committee on the bytes of the summary,
/// - a committee target is what the bytes of the summary name for the next epoch,
/// - objects and events to be proved come with evidence, and
/// - the evidence is what the chain committed to: contents with the digest in the
///   summary, which list the execution with the digests of the transaction and of
///   the effects; events with the digest in the effects, or none where the effects
///   record none; each target event at its place among them; each target object
///   among the objects that the effects changed.
pub proof fn law_proof_holds(committee: CommitteeView, proof: ProofView)
    requires
        summary_from_bcs(
            proof.checkpoint_summary.bcs,
            proof.checkpoint_summary.signature,
        ) == Ok::<_, DecodeError>(proof.checkpoint_summary),
        proof.contents_proof is Some ==> {
            let evidence = proof.contents_proof->0;
            &&& contents_from_bcs(evidence.checkpoint_contents.bcs) == Ok::<_, DecodeError>(
                evidence.checkpoint_contents,
            )
            &&& transaction_from_bcs(
                evidence.transaction.bcs,
                evidence.transaction.signatures,
            ) == Ok::<_, DecodeError>(evidence.transaction)
            &&& effects_from_bcs(evidence.effects.bcs) == Ok::<_, DecodeError>(evidence.effects)
            &&& evidence.events is Some ==> events_from_bcs(evidence.events->0.events) == Ok::<
                _,
                DecodeError,
            >(evidence.events->0)
        },
        forall|i: int|
            0 <= i < proof.targets.objects.len() ==> object_from_bcs(
                (#[trigger] proof.targets.objects[i]).1.bcs,
            ) == Ok::<_, DecodeError>(proof.targets.objects[i].1),
    ensures
        proof_verdict(committee, proof) is Ok <==> ({
            let summary = proof.checkpoint_summary;
            let fields = summary_fields(summary.bcs)->0;
            &&& fields.epoch == committee.epoch
            &&& signature_epoch_of(summary.signature) == Some(committee.epoch)
            &&& quorum_signed(
                committee.epoch,
                committee.members,
                summary.bcs,
                summary.signature,
            )
            &&& proof.targets.committee is Some ==> {
                let next = proof.targets.committee->0;
                &&& fields.next_epoch_committee is Some
                &&& next.epoch == fields.epoch + 1
                &&& forall|name: AuthorityName| #[trigger]
                    stake_of(next.members, name) == stake_of(
                        fields.next_epoch_committee->0,
                        name,
                    )
                &&& forall|i: int, j: int|
                    0 <= i < j < next.members.len() ==> precedes(
                        #[trigger] next.members[i].0,
                        #[trigger] next.members[j].0,
                    )
            }
            &&& proof.contents_proof is None ==> {
                &&& proof.targets.events.len() == 0
                &&& proof.targets.objects.len() == 0
            }
            &&& proof.contents_proof is Some ==> {
                let evidence = proof.contents_proof->0;
                let (transaction, events_digest) = effects_fields_of(evidence.effects.bcs)->0;
                let effects = effects_digest_of(evidence.effects.bcs)->0;
                let contents = evidence.checkpoint_contents.bcs;
                &&& contents_digest_of(contents) == Some(fields.contents_digest)
                &&& contents_transactions_of(contents)->0.contains(
                    ExecutionDigests { transaction, effects },
                )
                &&& transaction_digest_of(evidence.transaction.bcs) == Some(transaction)
                &&& evidence.events is Some <==> events_digest is Some
                &&& evidence.events is Some ==> events_digest_of(evidence.events->0.events)
                    == events_digest
                &&& forall|i: int|
                    0 <= i < proof.targets.events.len() ==> {
                        let (id, event) = #[trigger] proof.targets.events[i];
                        &&& id.tx_digest == transaction
                        &&& evidence.events is Some
                        &&& id.event_seq < evidence.events->0.events.len()
                        &&& evidence.events->0.events[id.event_seq as int] == event
                    }
                &&& forall|i: int|
                    0 <= i < proof.targets.objects.len() ==> {
                        let (reference, object) = #[trigger] proof.targets.objects[i];
                        &&& object_reference_of(object.bcs) == Some(reference)
                        &&& changed_objects_of(evidence.effects.bcs)->0.contains(reference)
                    }
            }
        }),
{
    let summary = proof.checkpoint_summary;
    law_committee_target_verdict(summary, proof.targets.committee);
    if proof.contents_proof is Some {
        let evidence = proof.contents_proof->0;
        law_evidence(evidence);
        law_event_targets(proof.targets.events, evidence);
        law_object_targets(proof.targets.objects, evidence);
        assert forall|i: int| 0 <= i < proof.targets.objects.len() implies object_reference_of(
            (#[trigger] proof.targets.objects[i]).1.bcs,
        ) == Some(proof.targets.objects[i].1.reference) by {
            assert(object_from_bcs(proof.targets.objects[i].1.bcs) is Ok);
        }
        lemma_events_hold_exactly(proof.targets.events, evidence);
        lemma_objects_hold_exactly(proof.targets.objects, evidence);
    }
}

/// Where each event target was emitted, the event targets hold.
proof fn lemma_events_hold_exactly(
    targets: Seq<(EventID, Seq<u8>)>,
    proof: TransactionProofView,
)
    ensures
        (forall|i: int|
            0 <= i < targets.len() ==> {
                let (id, event) = #[trigger] targets[i];
                &&& id.tx_digest == proof.effects.digests.transaction
                &&& proof.events is Some
                &&& id.event_seq < proof.events->0.events.len()
                &&& proof.events->0.events[id.event_seq as int] == event
            }) ==> events_verdict(targets, proof) is Ok,
{
    law_event_targets(targets, proof);
    if proof.events is None && targets.len() > 0 {
        let (id, event) = targets[0];
    }
}

/// Where each object target was written, the object targets hold.
proof fn lemma_objects_hold_exactly(
    targets: Seq<(ObjectRef, ObjectView)>,
    proof: TransactionProofView,
)
    ensures
        (forall|i: int|
            0 <= i < targets.len() ==> {
                let (reference, object) = #[trigger] targets[i];
                &&& reference == object.reference
                &&& proof.effects.changed_objects.contains(reference)
            }) ==> objects_verdict(targets, proof) is Ok,
{
    law_object_targets(targets, proof);
}

// What is made of replies.

/// The payloads of messages are what they carry, one for each, in order.
pub proof fn law_payloads(messages: Seq<Option<Seq<u8>>>)
    ensures
        match payloads(messages) {
            Some(carried) => {
                &&& carried.len() == messages.len()
                &&& forall|i: int|
                    0 <= i < messages.len() ==> (#[trigger] messages[i]) == Some(carried[i])
            },
            None => exists|i: int|
                0 <= i < messages.len() && (#[trigger] messages[i]) is None,
        },
{
}

/// A served summary is decoded from the two messages that carry it.
pub proof fn law_served_summary(response: CheckpointResponseView)
    ensures
        match served_summary(response) {
            Ok(summary) => {
                &&& response.summary == Some(Some(summary.bcs))
                &&& response.signature == Some(Some(summary.signature))
                &&& summary_digest_of(summary.bcs) == Some(summary.digest)
                &&& summary_fields(summary.bcs) == Some(
                    SummaryFieldsView {
                        epoch: summary.epoch,
                        sequence_number: summary.sequence_number,
                        contents_digest: summary.contents_digest,
                        next_epoch_committee: summary.next_epoch_committee,
                    },
                )
                &&& signature_epoch_of(summary.signature) == Some(summary.signature_epoch)
            },
            Err(error) => {
                &&& error == ResponseError::NoSignedSummary
                &&& {
                    ||| response.summary is None
                    ||| response.summary->0 is None
                    ||| summary_fields(response.summary->0->0) is None
                    ||| summary_digest_of(response.summary->0->0) is None
                    ||| response.signature is None
                    ||| response.signature->0 is None
                    ||| signature_epoch_of(response.signature->0->0) is None
                }
            },
        },
{
}

/// Served contents are decoded from the message that carries them.
pub proof fn law_served_contents(response: CheckpointResponseView)
    ensures
        match served_contents(response) {
            Ok(contents) => {
                &&& response.contents == Some(Some(contents.bcs))
                &&& contents_digest_of(contents.bcs) == Some(contents.digest)
                &&& contents_transactions_of(contents.bcs) == Some(contents.transactions)
            },
            Err(ResponseError::NoContents) => response.contents is None,
            Err(ResponseError::Contents) => {
                &&& response.contents is Some
                &&& {
                    ||| response.contents->0 is None
                    ||| contents_digest_of(response.contents->0->0) is None
                    ||| contents_transactions_of(response.contents->0->0) is None
                }
            },
            Err(_) => false,
        },
{
}

/// A served transaction carries every signature served, in order.
pub proof fn law_served_transaction(response: ExecutedTransactionView)
    ensures
        match served_transaction(response) {
            Ok(transaction) => {
                &&& response.transaction == Some(Some(transaction.bcs))
                &&& transaction_digest_of(transaction.bcs) == Some(transaction.digest)
                &&& response.signatures is Some
                &&& transaction.signatures.len() == response.signatures->0.len()
                &&& forall|i: int|
                    0 <= i < transaction.signatures.len() ==> {
                        &&& (#[trigger] response.signatures->0[i]) == Some(
                            transaction.signatures[i],
                        )
                        &&& is_user_signature(transaction.signatures[i])
                    }
            },
            Err(ResponseError::NoTransactionData) => response.transaction is None,
            Err(ResponseError::TransactionData) => {
                &&& response.transaction is Some
                &&& response.transaction->0 is None || transaction_digest_of(
                    response.transaction->0->0,
                ) is None
            },
            Err(ResponseError::NoSignatures) => {
                &&& response.transaction is Some
                &&& response.transaction->0 is Some
                &&& transaction_digest_of(response.transaction->0->0) is Some
                &&& response.signatures is None
            },
            Err(ResponseError::Signatures) => {
                &&& response.transaction is Some
                &&& response.transaction->0 is Some
                &&& transaction_digest_of(response.transaction->0->0) is Some
                &&& response.signatures is Some
                &&& exists|i: int|
                    0 <= i < response.signatures->0.len() && {
                        ||| (#[trigger] response.signatures->0[i]) is None
                        ||| !is_user_signature(response.signatures->0[i]->0)
                    }
            },
            Err(_) => false,
        },
{
    if response.transaction is Some && response.transaction->0 is Some
        && response.signatures is Some {
        let messages = response.signatures->0;
        law_payloads(messages);
        law_transaction_is_what_is_encoded(response.transaction->0->0, Seq::empty());
        if payloads(messages) is Some {
            let signatures = payloads(messages)->0;
            law_transaction_is_what_is_encoded(response.transaction->0->0, signatures);
            if exists|i: int|
                0 <= i < signatures.len() && !is_user_signature(#[trigger] signatures[i]) {
                let i = choose|i: int|
                    0 <= i < signatures.len() && !is_user_signature(#[trigger] signatures[i]);
                assert(messages[i] == Some(signatures[i]));
            }
        }
    }
}

/// Served effects are decoded from the message that carries them.
pub proof fn law_served_effects(response: ExecutedTransactionView)
    ensures
        match served_effects(response) {
            Ok(effects) => {
                &&& response.effects == Some(Some(effects.bcs))
                &&& effects_fields_of(effects.bcs) == Some(
                    (effects.digests.transaction, effects.events_digest),
                )
                &&& effects_digest_of(effects.bcs) == Some(effects.digests.effects)
                &&& changed_objects_of(effects.bcs) == Some(effects.changed_objects)
            },
            Err(ResponseError::NoEffects) => response.effects is None,
            Err(ResponseError::Effects) => {
                &&& response.effects is Some
                &&& {
                    ||| response.effects->0 is None
                    ||| effects_fields_of(response.effects->0->0) is None
                    ||| effects_digest_of(response.effects->0->0) is None
                    ||| changed_objects_of(response.effects->0->0) is None
                }
            },
            Err(_) => false,
        },
{
}

/// Events are wanted where the effects record a digest of events, and then every
/// event served is kept, in order.
pub proof fn law_served_events(
    response: ExecutedTransactionView,
    events_digest: Option<Digest>,
)
    ensures
        match served_events(response, events_digest) {
            Ok(None) => events_digest is None,
            Ok(Some(events)) => {
                &&& events_digest is Some
                &&& response.events is Some
                &&& response.events->0 is Some
                &&& events.events.len() == response.events->0->0.len()
                &&& forall|i: int|
                    0 <= i < events.events.len() ==> (#[trigger] response.events->0->0[i])
                        == Some(events.events[i])
                &&& events_digest_of(events.events) == Some(events.digest)
            },
            Err(ResponseError::NoEvents) => events_digest is Some && response.events is None,
            Err(ResponseError::Events) => {
                &&& events_digest is Some
                &&& response.events is Some
                &&& {
                    ||| response.events->0 is None
                    ||| exists|i: int|
                        0 <= i < response.events->0->0.len() && (
                        #[trigger] response.events->0->0[i]) is None
                    ||| events_digest_of(
                        Seq::new(response.events->0->0.len(), |i: int| response.events->0->0[i]->0),
                    ) is None
                }
            },
            Err(_) => false,
        },
{
    if events_digest is Some && response.events is Some && response.events->0 is Some {
        let messages = response.events->0->0;
        law_payloads(messages);
        if payloads(messages) is Some {
            assert(payloads(messages)->0 =~= Seq::new(
                messages.len(),
                |i: int| messages[i]->0,
            ));
        }
    }
}

/// A proof built for a transaction is made of every part of the replies as it was
/// served: the bytes of the summary, of its signature, of the contents, of the
/// transaction and of the effects, each signature and each event. It is about the
/// transaction asked for, and it has no targets.
pub proof fn law_built_proof_is_what_was_served(
    asked: Digest,
    transaction: ExecutedTransactionView,
    checkpoint: CheckpointResponseView,
)
    ensures
        match served_proof(asked, transaction, checkpoint) {
            Ok(built) => {
                let evidence = built.contents_proof->0;
                &&& built.targets.objects.len() == 0
                &&& built.targets.events.len() == 0
                &&& built.targets.committee is None
                &&& checkpoint.summary == Some(Some(built.checkpoint_summary.bcs))
                &&& checkpoint.signature == Some(Some(built.checkpoint_summary.signature))
                &&& built.contents_proof is Some
                &&& checkpoint.contents == Some(Some(evidence.checkpoint_contents.bcs))
                &&& transaction.transaction == Some(Some(evidence.transaction.bcs))
                &&& transaction_digest_of(evidence.transaction.bcs) == Some(asked)
                &&& transaction.signatures is Some
                &&& evidence.transaction.signatures.len() == transaction.signatures->0.len()
                &&& forall|i: int|
                    0 <= i < evidence.transaction.signatures.len() ==> (
                    #[trigger] transaction.signatures->0[i]) == Some(
                        evidence.transaction.signatures[i],
                    )
                &&& transaction.effects == Some(Some(evidence.effects.bcs))
                &&& evidence.events is Some <==> (effects_fields_of(
                    evidence.effects.bcs,
                )->0).1 is Some
                &&& evidence.events is Some ==> {
                    &&& transaction.events is Some
                    &&& transaction.events->0 is Some
                    &&& evidence.events->0.events.len() == transaction.events->0->0.len()
                    &&& forall|i: int|
                        0 <= i < evidence.events->0.events.len() ==> (
                        #[trigger] transaction.events->0->0[i]) == Some(
                            evidence.events->0.events[i],
                        )
                }
            },
            Err(error) => {
                let effects = served_effects(transaction);
                let events = served_events(transaction, effects->Ok_0.events_digest);
                let summary = served_summary(checkpoint);
                let contents = served_contents(checkpoint);
                let signed = served_transaction(transaction);
                ||| effects is Err && error == effects->Err_0
                ||| effects is Ok && events is Err && error == events->Err_0
                ||| effects is Ok && events is Ok && summary is Err && error == summary->Err_0
                ||| effects is Ok && events is Ok && summary is Ok && contents is Err && error
                    == contents->Err_0
                ||| effects is Ok && events is Ok && summary is Ok && contents is Ok
                    && signed is Err && error == signed->Err_0
                ||| {
                    &&& effects is Ok
                    &&& events is Ok
                    &&& summary is Ok
                    &&& contents is Ok
                    &&& signed is Ok
                    &&& signed->Ok_0.digest != asked
                    &&& error == (ResponseError::OtherTransaction {
                        asked,
                        served: signed->Ok_0.digest,
                    })
                }
            },
        },
{
    law_served_summary(checkpoint);
    law_served_contents(checkpoint);
    law_served_transaction(transaction);
    law_served_effects(transaction);
    if served_effects(transaction) is Ok {
        law_served_events(transaction, served_effects(transaction)->Ok_0.events_digest);
    }
}

/// A proof built for a transaction carries all that a verifier looks at: it is
/// decoded, so it holds exactly as any proof of decoded parts does.
pub proof fn law_built_proof_is_decoded(
    asked: Digest,
    transaction: ExecutedTransactionView,
    checkpoint: CheckpointResponseView,
)
    requires
        served_proof(asked, transaction, checkpoint) is Ok,
    ensures
        ({
            let built = served_proof(asked, transaction, checkpoint)->Ok_0;
            let summary = built.checkpoint_summary;
            let evidence = built.contents_proof->0;
            &&& summary_from_bcs(summary.bcs, summary.signature) == Ok::<_, DecodeError>(summary)
            &&& contents_from_bcs(evidence.checkpoint_contents.bcs) == Ok::<_, DecodeError>(
                evidence.checkpoint_contents,
            )
            &&& transaction_from_bcs(
                evidence.transaction.bcs,
                evidence.transaction.signatures,
            ) == Ok::<_, DecodeError>(evidence.transaction)
            &&& effects_from_bcs(evidence.effects.bcs) == Ok::<_, DecodeError>(evidence.effects)
            &&& evidence.events is Some ==> events_from_bcs(evidence.events->0.events) == Ok::<
                _,
                DecodeError,
            >(evidence.events->0)
        }),
{
}

/// A response holds a committee where its epoch is there and each member has a
/// public key and a stake; these are the voting rights, one for each member.
pub proof fn law_held_committee(
    message: CommitteeMessageView,
    epoch: EpochId,
    rights: VotingRights,
)
    ensures
        holds_committee(message, epoch, rights) <==> {
            &&& message.epoch == Some(epoch)
            &&& message.members is Some
            &&& message.members->0.len() == rights.len()
            &&& forall|i: int|
                0 <= i < rights.len() ==> {
                    &&& (#[trigger] message.members->0[i]).0 == Some(rights[i].0@)
                    &&& message.members->0[i].1 == Some(rights[i].1)
                }
        },
{
    if message.members is Some && message.members->0.len() == rights.len() && forall|i: int|
        0 <= i < rights.len() ==> {
            &&& (#[trigger] message.members->0[i]).0 == Some(rights[i].0@)
            &&& message.members->0[i].1 == Some(rights[i].1)
        } {
        assert forall|i: int| 0 <= i < rights.len() implies (
        #[trigger] message.members->0[i]) == (Some(rights[i].0@), Some(rights[i].1)) by {
        }
    }
}

/// The committee taken from a response has the epoch and the rights it holds.
pub proof fn law_taken_committee(
    response: CommitteeMessageView,
    rights: VotingRights,
    taken: CommitteeView,
)
    requires
        is_served_committee(Some(response), taken),
        holds_committee(response, taken.epoch, rights),
    ensures
        response.epoch == Some(taken.epoch),
        forall|name: AuthorityName| #[trigger]
            stake_of(taken.members, name) == stake_of(rights, name),
{
    let held = choose|held: VotingRights|
        #[trigger] holds_committee(response, taken.epoch, held) && taken.is_committee_of(
            taken.epoch,
            held,
        );
    assert forall|i: int| 0 <= i < held.len() implies held[i] == #[trigger] rights[i] by {
        let member = response.members->0[i];
        assert(member == (Some(held[i].0@), Some(held[i].1)));
        assert(member == (Some(rights[i].0@), Some(rights[i].1)));
        let a = held[i].0;
        let b = rights[i].0;
        assert forall|j: int| 0 <= j < 96 implies a[j] == b[j] by {
            assert(a@[j] == b@[j]);
        }
        assert(a =~= b);
    }
    assert(held =~= rights);
}

// Walks.

/// A target epoch can be reached from the trusted epoch on, up to the node's.
pub proof fn law_reach(trusted: EpochId, target: EpochId, node: EpochId)
    ensures
        match reach_verdict(trusted, target, node) {
            Ok(()) => trusted <= target <= node,
            Err(WalkError::TargetBeforeTrusted { target: t, trusted: e }) => {
                &&& t == target
                &&& e == trusted
                &&& target < trusted
            },
            Err(WalkError::TargetAheadOfNode { target: t, node: n }) => {
                &&& t == target
                &&& n == node
                &&& trusted <= target
                &&& node < target
            },
            Err(_) => false,
        },
{
}

/// The next committee has the next epoch, and each validator has the stake that
/// the summary gives it.
pub proof fn law_named_next(summary: SummaryView, next: CommitteeView)
    ensures
        names_next(summary, next) <==> {
            &&& summary.next_epoch_committee is Some
            &&& next.epoch == summary.epoch + 1
            &&& forall|name: AuthorityName| #[trigger]
                stake_of(next.members, name) == stake_of(summary.next_epoch_committee->0, name)
            &&& forall|i: int, j: int|
                0 <= i < j < next.members.len() ==> precedes(
                    #[trigger] next.members[i].0,
                    #[trigger] next.members[j].0,
                )
        },
{
}

/// A summary names no next committee where it holds none or the next epoch has no
/// number.
pub proof fn law_no_next_committee(summary: SummaryView, checkpoint: u64)
    ensures
        match next_committee_failure(summary, checkpoint) {
            None => summary.next_epoch_committee is Some && summary.epoch < u64::MAX,
            Some(WalkError::NotEndOfEpoch { checkpoint: c }) => {
                &&& c == checkpoint
                &&& summary.next_epoch_committee is None
            },
            Some(WalkError::NextEpochOverflow) => {
                &&& summary.next_epoch_committee is Some
                &&& summary.epoch == u64::MAX
            },
            Some(_) => false,
        },
{
}

/// A transition fails where the current committee did not certify the checkpoint,
/// which is told first, or where the checkpoint names no next committee.
pub proof fn law_judged_transition(
    certified: Result<(), CertificationError>,
    epoch: EpochId,
    summary: SummaryView,
    checkpoint: u64,
)
    ensures
        match transition_failure_given(certified, epoch, summary, checkpoint) {
            None => {
                &&& certified is Ok
                &&& summary.next_epoch_committee is Some
                &&& summary.epoch < u64::MAX
            },
            Some(WalkError::Transition { epoch: e, checkpoint: c, error }) => {
                &&& e == epoch
                &&& c == checkpoint
                &&& certified == Err::<(), _>(error)
            },
            Some(WalkError::NotEndOfEpoch { checkpoint: c }) => {
                &&& c == checkpoint
                &&& certified is Ok
                &&& summary.next_epoch_committee is None
            },
            Some(WalkError::NextEpochOverflow) => {
                &&& certified is Ok
                &&& summary.next_epoch_committee is Some
                &&& summary.epoch == u64::MAX
            },
            Some(_) => false,
        },
{
}

/// A served transition is good exactly where both parts of the signed summary are
/// served and decode, a quorum of the current committee signed the bytes in the
/// current epoch, and the bytes name a committee for a next epoch.
pub proof fn law_served_transition(
    current: CommitteeView,
    checkpoint: CheckpointResponseView,
    last_checkpoint: u64,
)
    ensures
        transition_failure(current, checkpoint, last_checkpoint) is None <==> {
            &&& checkpoint.summary is Some
            &&& checkpoint.summary->0 is Some
            &&& checkpoint.signature is Some
            &&& checkpoint.signature->0 is Some
            &&& summary_digest_of(checkpoint.summary->0->0) is Some
            &&& summary_fields(checkpoint.summary->0->0) is Some
            &&& summary_fields(checkpoint.summary->0->0)->0.epoch == current.epoch
            &&& signature_epoch_of(checkpoint.signature->0->0) == Some(current.epoch)
            &&& quorum_signed(
                current.epoch,
                current.members,
                checkpoint.summary->0->0,
                checkpoint.signature->0->0,
            )
            &&& summary_fields(checkpoint.summary->0->0)->0.next_epoch_committee is Some
            &&& current.epoch < u64::MAX
        },
        match transition_failure(current, checkpoint, last_checkpoint) {
            Some(WalkError::Response(error)) => served_summary(checkpoint) == Err::<
                SummaryView,
                _,
            >(error),
            Some(error) => served_summary(checkpoint) is Ok && transition_failure_given(
                signatures_verdict(current, served_summary(checkpoint)->Ok_0),
                current.epoch,
                served_summary(checkpoint)->Ok_0,
                last_checkpoint,
            ) == Some(error),
            None => true,
        },
{
    law_served_summary(checkpoint);
}

/// A committee authenticates its successor by signing the bytes that name it.
pub proof fn law_authenticated(
    current: CommitteeView,
    summary: SummaryView,
    next: CommitteeView,
)
    ensures
        authenticates(current, summary, next) <==> {
            &&& summary.epoch == current.epoch
            &&& summary.signature_epoch == current.epoch
            &&& quorum_signed(current.epoch, current.members, summary.bcs, summary.signature)
            &&& summary.next_epoch_committee is Some
            &&& next.epoch == current.epoch + 1
            &&& forall|name: AuthorityName| #[trigger]
                stake_of(next.members, name) == stake_of(summary.next_epoch_committee->0, name)
            &&& forall|i: int, j: int|
                0 <= i < j < next.members.len() ==> precedes(
                    #[trigger] next.members[i].0,
                    #[trigger] next.members[j].0,
                )
        },
{
}

/// In a lineage each committee authenticates the next, and there is one summary
/// between each two.
pub proof fn law_lineage(committees: Seq<CommitteeView>, summaries: Seq<SummaryView>)
    ensures
        lineage(committees, summaries) <==> {
            &&& committees.len() == summaries.len() + 1
            &&& forall|i: int|
                0 <= i < summaries.len() ==> authenticates(
                    committees[i],
                    #[trigger] summaries[i],
                    committees[i + 1],
                )
        },
{
}

/// A walk follows what was signed: at each step a quorum of the committee reached
/// signed bytes, and the next committee is what the SDK reads in these bytes, each
/// validator with its own stake.
pub proof fn law_walk_follows_what_was_signed(walk: WalkView, i: int)
    requires
        walk.well_formed(),
        0 <= i < walk.summaries.len(),
    ensures
        ({
            let current = walk.committees[i];
            let next = walk.committees[i + 1];
            let bcs = walk.summaries[i].bcs;
            let signature = walk.summaries[i].signature;
            &&& walk.committees.len() == walk.summaries.len() + 1
            &&& walk.reached() == walk.committees[walk.committees.len() - 1]
            &&& walk.reached().epoch <= walk.target_epoch
            &&& quorum_signed(current.epoch, current.members, bcs, signature)
            &&& signature_epoch_of(signature) == Some(current.epoch)
            &&& summary_fields(bcs) is Some
            &&& summary_fields(bcs)->0.epoch == current.epoch
            &&& summary_fields(bcs)->0.next_epoch_committee is Some
            &&& next.epoch == current.epoch + 1
            &&& forall|name: AuthorityName| #[trigger]
                stake_of(next.members, name) == stake_of(
                    summary_fields(bcs)->0.next_epoch_committee->0,
                    name,
                )
            &&& forall|k: int, l: int|
                0 <= k < l < next.members.len() ==> precedes(
                    #[trigger] next.members[k].0,
                    #[trigger] next.members[l].0,
                )
        }),
{
    let summary = walk.summaries[i];
    assert(authenticates(walk.committees[i], summary, walk.committees[i + 1]));
    assert(summary_from_bcs(summary.bcs, summary.signature) == Ok::<_, DecodeError>(summary));
}

// Texts.

/// A numeral is the numeral of the tens, followed by the digit of the ones.
pub proof fn law_numerals(tens: nat, ones: nat)
    requires
        ones < 10,
    ensures
        digit(ones) == "0123456789"@[ones as int],
        decimal(ones) == seq!["0123456789"@[ones as int]],
        tens > 0 ==> decimal(10 * tens + ones) == decimal(tens).push(
            "0123456789"@[ones as int],
        ),
{
    if tens > 0 {
        let n = 10 * tens + ones;
        assert(n / 10 == tens);
        assert(n % 10 == ones);
    }
}

/// Each number and each digest that an error holds stands in its message, in its
/// place.
pub proof fn law_messages(a: u64, b: u64, c: Digest, d: Digest, e: CertificationError)
    ensures
        certification_text(CertificationError::SummaryEpoch { summary: a, signature: b })
            == "checkpoint summary of epoch "@ + decimal(a as nat)
            + " carries a signature of epoch "@ + decimal(b as nat),
        certification_text(CertificationError::CommitteeEpoch { committee: a, signature: b })
            == "committee of epoch "@ + decimal(a as nat)
            + " cannot verify a signature of epoch "@ + decimal(b as nat),
        verify_text(VerifyError::Certification(e)) == certification_text(e),
        response_text(ResponseError::NoTransaction { digest: c })
            == "gRPC returned no transaction for "@ + digest_to_base58(c) + ""@,
        response_text(ResponseError::NoCheckpointSequence { digest: c }) == "transaction "@
            + digest_to_base58(c) + " response is missing checkpoint sequence"@,
        response_text(ResponseError::OtherTransaction { asked: c, served: d })
            == "gRPC returned transaction "@ + digest_to_base58(d) + " for "@ + digest_to_base58(
            c,
        ),
        response_text(ResponseError::NoLastCheckpoint { epoch: a }) == "epoch "@ + decimal(
            a as nat,
        ) + " response is missing last checkpoint"@,
        response_text(ResponseError::NoCommittee { epoch: a }) == "epoch "@ + decimal(a as nat)
            + " response is missing committee"@,
        walk_text(WalkError::TargetBeforeTrusted { target: a, trusted: b }) == "target epoch "@
            + decimal(a as nat) + " is before trusted committee epoch "@ + decimal(b as nat),
        walk_text(WalkError::TargetAheadOfNode { target: a, node: b }) == "target epoch "@
            + decimal(a as nat) + " is ahead of node current epoch "@ + decimal(b as nat),
        walk_text(WalkError::Transition { epoch: a, checkpoint: b, error: e })
            == "failed to verify epoch "@ + decimal(a as nat) + " transition checkpoint "@
            + decimal(b as nat),
        walk_text(WalkError::NotEndOfEpoch { checkpoint: a }) == "checkpoint "@ + decimal(
            a as nat,
        ) + " is not an end-of-epoch checkpoint"@,
{
}

/// An error that holds nothing is told in words of its own.
pub proof fn law_fixed_messages()
    ensures
        certification_text(CertificationError::Signature)
            == "checkpoint summary is not signed by a quorum"@,
        certification_text(CertificationError::ContentsDigest)
            == "checkpoint contents digest does not match the summary"@,
        verify_text(VerifyError::NoEndOfEpochCommittee)
            == "no end-of-epoch committee in checkpoint summary"@,
        verify_text(VerifyError::NextEpochOverflow) == "next epoch overflows u64"@,
        verify_text(VerifyError::CommitteeMismatch)
            == "given committee does not match the end-of-epoch committee"@,
        verify_text(VerifyError::ContentsProofMissing) == "contents proof is missing"@,
        verify_text(VerifyError::TransactionDigestMismatch)
            == "transaction digest does not match the execution digest"@,
        verify_text(VerifyError::TransactionNotInCheckpoint)
            == "transaction digest not found in the checkpoint contents"@,
        verify_text(VerifyError::EventsDigestMismatch)
            == "events digest does not match the execution digest"@,
        verify_text(VerifyError::EventsMissing) == "events digest is missing"@,
        verify_text(VerifyError::EventOfOtherTransaction)
            == "event does not belong to the transaction"@,
        verify_text(VerifyError::EventOutOfBounds) == "event sequence number out of bounds"@,
        verify_text(VerifyError::EventMismatch) == "event contents do not match"@,
        verify_text(VerifyError::ObjectReferenceMismatch)
            == "object reference does not match the object"@,
        verify_text(VerifyError::ObjectNotFound) == "object not found"@,
        response_text(ResponseError::NoSignedSummary)
            == "checkpoint response is missing signed summary"@,
        response_text(ResponseError::NoContents) == "checkpoint response is missing contents BCS"@,
        response_text(ResponseError::Contents) == "failed to deserialize checkpoint contents"@,
        response_text(ResponseError::NoTransactionData)
            == "transaction response is missing transaction BCS"@,
        response_text(ResponseError::TransactionData) == "failed to deserialize transaction BCS"@,
        response_text(ResponseError::NoSignatures) == "transaction response is missing signatures"@,
        response_text(ResponseError::Signatures) == "failed to deserialize transaction signatures"@,
        response_text(ResponseError::NoEffects) == "transaction response is missing effects BCS"@,
        response_text(ResponseError::Effects) == "failed to deserialize transaction effects"@,
        response_text(ResponseError::NoEvents)
            == "transaction effects refer to events but event data is missing"@,
        response_text(ResponseError::Events) == "failed to deserialize transaction events"@,
        response_text(ResponseError::NoCurrentEpoch)
            == "service info response is missing current epoch"@,
        walk_text(WalkError::NextEpochOverflow) == "next epoch overflows u64"@,
{
}

/// A walk that stops for want of a reply tells what the reply lacks.
pub proof fn law_stopped_walk_message(error: ResponseError)
    ensures
        walk_text(WalkError::Response(error)) == response_text(error),
{
}

/// A report names the checkpoint by its digest, its height and its epoch.
pub proof fn law_checkpoint_lines(summary: SummaryView)
    ensures
        checkpoint_lines(summary) == "\ncheckpoint: "@ + digest_to_base58(summary.digest)
            + "\ncheckpoint sequence number: "@ + decimal(summary.sequence_number as nat)
            + "\nepoch: "@ + decimal(summary.epoch as nat),
{
}

} // verus!
