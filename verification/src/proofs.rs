//! Proofs that a checkpoint is certified and that it contains a transaction with
//! given events and objects.

use vstd::prelude::*;

use crate::bytes::{same_digest, same_optional_digest, Digest};
use crate::checkpoint::{
    certification, CertifiedCheckpointSummary, CheckpointContents, ContentsView, ExecutionDigests,
    SummaryView,
};
use crate::committee::{
    law_one_committee, stake_of, AuthorityName, Committee, CommitteeView, EpochId,
};
use crate::error::{CertificationError, VerifyError};
use crate::object::{Object, ObjectRef, ObjectView};
use crate::sdk::{
    changed_objects_of, contents_digest_of, contents_transactions_of, effects_digest_of,
    effects_fields_of, events_digest_of, object_reference_of, quorum_signed, signature_epoch_of,
    summary_fields, transaction_digest_of,
};
use crate::transaction::{
    EffectsView, Event, EventID, EventsView, Transaction, TransactionEffects, TransactionEvents,
    TransactionView,
};
use crate::views::{encodings, option_view};

verus! {

/// A proof for specific targets. It certifies a checkpoint summary and
/// optionally includes transaction evidence to certify objects and events.
#[derive(Debug)]
pub struct Proof {
    /// What is to be certified: a committee, objects or events.
    pub targets: ProofTargets,
    /// The summary of the checkpoint being certified.
    pub checkpoint_summary: CertifiedCheckpointSummary,
    /// The transaction that certifies objects and events.
    pub contents_proof: Option<TransactionProof>,
}

/// Aspects of chain state that need to be certified in a proof.
#[derive(Debug)]
pub struct ProofTargets {
    /// Objects that need to be certified.
    pub objects: Vec<(ObjectRef, Object)>,
    /// Events that need to be certified.
    pub events: Vec<(EventID, Event)>,
    /// The next committee being certified.
    pub committee: Option<Committee>,
}

/// Transaction evidence used to certify objects and events.
#[derive(Debug)]
pub struct TransactionProof {
    /// The contents of the checkpoint that lists the transaction.
    pub checkpoint_contents: CheckpointContents,
    /// The transaction being certified.
    pub transaction: Transaction,
    /// The effects of the transaction.
    pub effects: TransactionEffects,
    /// The events of the transaction.
    pub events: Option<TransactionEvents>,
}

/// What a [`Proof`] is.
pub struct ProofView {
    pub targets: TargetsView,
    pub checkpoint_summary: SummaryView,
    pub contents_proof: Option<TransactionProofView>,
}

/// What a [`ProofTargets`] is.
pub struct TargetsView {
    pub objects: Seq<(ObjectRef, ObjectView)>,
    pub events: Seq<(EventID, Seq<u8>)>,
    pub committee: Option<CommitteeView>,
}

/// What a [`TransactionProof`] is.
pub struct TransactionProofView {
    pub checkpoint_contents: ContentsView,
    pub transaction: TransactionView,
    pub effects: EffectsView,
    pub events: Option<EventsView>,
}

impl View for Proof {
    type V = ProofView;

    open spec fn view(&self) -> ProofView {
        ProofView {
            targets: self.targets@,
            checkpoint_summary: self.checkpoint_summary@,
            contents_proof: option_view(self.contents_proof),
        }
    }
}

impl View for ProofTargets {
    type V = TargetsView;

    open spec fn view(&self) -> TargetsView {
        TargetsView {
            objects: self.objects@.map_values(|target: (ObjectRef, Object)| (target.0, target.1@)),
            events: self.events@.map_values(|target: (EventID, Event)| (target.0, target.1@)),
            committee: option_view(self.committee),
        }
    }
}

impl View for TransactionProof {
    type V = TransactionProofView;

    open spec fn view(&self) -> TransactionProofView {
        TransactionProofView {
            checkpoint_contents: self.checkpoint_contents@,
            transaction: self.transaction@,
            effects: self.effects@,
            events: option_view(self.events),
        }
    }
}

/// Targets that ask for nothing.
pub open spec fn no_targets() -> TargetsView {
    TargetsView { objects: Seq::empty(), events: Seq::empty(), committee: None }
}

impl ProofTargets {
    /// Creates an empty proof target.
    ///
    /// An empty proof target still proves that the checkpoint summary is
    /// certified by the supplied committee.
    pub fn new() -> (targets: ProofTargets)
        ensures
            targets@ == no_targets(),
            targets.objects@.len() == 0,
            targets.events@.len() == 0,
            targets.committee is None,
    {
        let targets = ProofTargets { objects: Vec::new(), events: Vec::new(), committee: None };
        assert(targets@.objects =~= no_targets().objects);
        assert(targets@.events =~= no_targets().events);
        targets
    }

    /// Adds an object target by object reference and content.
    pub fn add_object(self, object_ref: ObjectRef, object: Object) -> (targets: ProofTargets)
        ensures
            targets@ == (TargetsView {
                objects: self@.objects.push((object_ref, object@)),
                ..self@
            }),
            targets.objects@ == self.objects@.push((object_ref, object)),
            targets.events == self.events,
            targets.committee == self.committee,
    {
        let ghost before = self@;
        let ProofTargets { objects, events, committee } = self;
        let mut objects = objects;
        objects.push((object_ref, object));
        let targets = ProofTargets { objects, events, committee };
        assert(targets@.objects =~= before.objects.push((object_ref, object@)));
        targets
    }

    /// Adds an event target by event position and content.
    pub fn add_event(self, event_id: EventID, event: Event) -> (targets: ProofTargets)
        ensures
            targets@ == (TargetsView { events: self@.events.push((event_id, event@)), ..self@ }),
            targets.events@ == self.events@.push((event_id, event)),
            targets.objects == self.objects,
            targets.committee == self.committee,
    {
        let ghost before = self@;
        let ProofTargets { objects, events, committee } = self;
        let mut events = events;
        events.push((event_id, event));
        let targets = ProofTargets { objects, events, committee };
        assert(targets@.events =~= before.events.push((event_id, event@)));
        targets
    }

    /// Sets the next committee as a proof target.
    pub fn set_committee(self, committee: Committee) -> (targets: ProofTargets)
        ensures
            targets@ == (TargetsView { committee: Some(committee@), ..self@ }),
            targets.committee == Some(committee),
            targets.objects == self.objects,
            targets.events == self.events,
    {
        ProofTargets { objects: self.objects, events: self.events, committee: Some(committee) }
    }
}

impl Default for ProofTargets {
    fn default() -> (targets: ProofTargets)
        ensures
            targets@ == no_targets(),
            targets.objects@.len() == 0,
            targets.events@.len() == 0,
            targets.committee is None,
    {
        ProofTargets::new()
    }
}

/// Whether `summary` names the committee to be proved as the next one, and if
/// not, why.
pub open spec fn committee_verdict(
    summary: SummaryView,
    expected: Option<CommitteeView>,
) -> Result<(), VerifyError> {
    match (expected, summary.next_epoch_committee) {
        (None, _) => Ok(()),
        (Some(_), None) => Err(VerifyError::NoEndOfEpochCommittee),
        (Some(expected), Some(rights)) => if summary.epoch == u64::MAX {
            Err(VerifyError::NextEpochOverflow)
        } else if expected.is_committee_of((summary.epoch + 1) as EpochId, rights) {
            Ok(())
        } else {
            Err(VerifyError::CommitteeMismatch)
        },
    }
}

/// Whether the evidence that the targets need is there.
pub open spec fn evidence_verdict(proof: ProofView) -> Result<(), VerifyError> {
    if (proof.targets.objects.len() > 0 || proof.targets.events.len() > 0)
        && proof.contents_proof is None {
        Err(VerifyError::ContentsProofMissing)
    } else {
        Ok(())
    }
}

/// The digest of the events that are presented, if any are.
pub open spec fn presented_events_digest(events: Option<EventsView>) -> Option<Digest> {
    match events {
        Some(events) => Some(events.digest),
        None => None,
    }
}

/// Whether the checkpoint contents list the execution of the transaction with
/// these effects and events, and if not, why.
pub open spec fn transaction_verdict(proof: TransactionProofView) -> Result<(), VerifyError> {
    if proof.transaction.digest != proof.effects.digests.transaction {
        Err(VerifyError::TransactionDigestMismatch)
    } else if !proof.checkpoint_contents.transactions.contains(proof.effects.digests) {
        Err(VerifyError::TransactionNotInCheckpoint)
    } else if proof.effects.events_digest != presented_events_digest(proof.events) {
        Err(VerifyError::EventsDigestMismatch)
    } else {
        Ok(())
    }
}

/// Whether the transaction with the digest `transaction`, which emitted
/// `events`, emitted `event` at `id`, and if not, why.
pub open spec fn event_verdict(
    transaction: Digest,
    events: Seq<Seq<u8>>,
    id: EventID,
    event: Seq<u8>,
) -> Result<(), VerifyError> {
    if id.tx_digest != transaction {
        Err(VerifyError::EventOfOtherTransaction)
    } else if id.event_seq >= events.len() {
        Err(VerifyError::EventOutOfBounds)
    } else if events[id.event_seq as int] != event {
        Err(VerifyError::EventMismatch)
    } else {
        Ok(())
    }
}

/// Whether `reference` is that of an object with the reference `computed` which
/// is among the `changed` ones, and if not, why.
pub open spec fn object_verdict(
    changed: Seq<ObjectRef>,
    reference: ObjectRef,
    computed: ObjectRef,
) -> Result<(), VerifyError> {
    if reference != computed {
        Err(VerifyError::ObjectReferenceMismatch)
    } else if !changed.contains(reference) {
        Err(VerifyError::ObjectNotFound)
    } else {
        Ok(())
    }
}

/// The first failure among `verdicts`, if one of them is a failure.
pub open spec fn first_failure(verdicts: Seq<Result<(), VerifyError>>) -> Result<(), VerifyError>
    decreases verdicts.len(),
{
    if verdicts.len() == 0 {
        Ok(())
    } else {
        match first_failure(verdicts.drop_last()) {
            Ok(()) => verdicts.last(),
            Err(error) => Err(error),
        }
    }
}

/// The verdict on each event to be proved.
pub open spec fn event_verdicts(
    transaction: Digest,
    events: Seq<Seq<u8>>,
    targets: Seq<(EventID, Seq<u8>)>,
) -> Seq<Result<(), VerifyError>> {
    targets.map_values(
        |target: (EventID, Seq<u8>)| event_verdict(transaction, events, target.0, target.1),
    )
}

/// The verdict on each object to be proved.
pub open spec fn object_verdicts(
    changed: Seq<ObjectRef>,
    targets: Seq<(ObjectRef, ObjectView)>,
) -> Seq<Result<(), VerifyError>> {
    targets.map_values(
        |target: (ObjectRef, ObjectView)| object_verdict(changed, target.0, target.1.reference),
    )
}

/// Whether the transaction emitted all events to be proved, and if not, why the
/// first one that it did not emit fails.
pub open spec fn events_verdict(
    targets: Seq<(EventID, Seq<u8>)>,
    proof: TransactionProofView,
) -> Result<(), VerifyError> {
    match proof.events {
        Some(events) => first_failure(
            event_verdicts(proof.effects.digests.transaction, events.events, targets),
        ),
        None => if targets.len() == 0 {
            Ok(())
        } else {
            Err(VerifyError::EventsMissing)
        },
    }
}

/// Whether the transaction wrote all objects to be proved, and if not, why the
/// first one that it did not write fails.
pub open spec fn objects_verdict(
    targets: Seq<(ObjectRef, ObjectView)>,
    proof: TransactionProofView,
) -> Result<(), VerifyError> {
    first_failure(object_verdicts(proof.effects.changed_objects, targets))
}

/// The first failure of two checks, if one of them fails.
pub open spec fn and_also(
    first: Result<(), VerifyError>,
    second: Result<(), VerifyError>,
) -> Result<(), VerifyError> {
    match first {
        Ok(()) => second,
        Err(error) => Err(error),
    }
}

/// Whether `proof` holds, given whether its checkpoint is certified, and if not,
/// why: certification, committee target, presence of evidence, transaction,
/// events and objects are checked in this order.
pub open spec fn verdict_given(
    certified: Result<(), CertificationError>,
    proof: ProofView,
) -> Result<(), VerifyError> {
    let certified = match certified {
        Ok(()) => Ok(()),
        Err(error) => Err(VerifyError::Certification(error)),
    };
    let evidence = match proof.contents_proof {
        Some(transaction_proof) => and_also(
            transaction_verdict(transaction_proof),
            and_also(
                events_verdict(proof.targets.events, transaction_proof),
                objects_verdict(proof.targets.objects, transaction_proof),
            ),
        ),
        None => Ok(()),
    };
    and_also(
        certified,
        and_also(
            committee_verdict(proof.checkpoint_summary, proof.targets.committee),
            and_also(evidence_verdict(proof), evidence),
        ),
    )
}

/// The checkpoint contents that `proof` presents, if any.
pub open spec fn presented_contents(proof: ProofView) -> Option<ContentsView> {
    match proof.contents_proof {
        Some(transaction_proof) => Some(transaction_proof.checkpoint_contents),
        None => None,
    }
}

/// Whether `proof` holds against `committee`, and if not, why.
pub open spec fn proof_verdict(committee: CommitteeView, proof: ProofView) -> Result<
    (),
    VerifyError,
> {
    verdict_given(
        certification(committee, proof.checkpoint_summary, presented_contents(proof)),
        proof,
    )
}

/// Verifies a proof against an authoritative committee.
///
/// A valid proof certifies the checkpoint summary and, when present, checks the
/// transaction evidence needed to authenticate target objects and events.
pub fn verify_proof(committee: &Committee, proof: &Proof) -> (verified: Result<(), VerifyError>)
    ensures
        verified == proof_verdict(committee@, proof@),
        verified is Ok <==> ({
            let summary = proof.checkpoint_summary@;
            let fields = summary_fields(summary.bcs)->0;
            &&& fields.epoch == committee@.epoch
            &&& signature_epoch_of(summary.signature) == Some(committee@.epoch)
            &&& quorum_signed(
                committee@.epoch,
                committee@.members,
                summary.bcs,
                summary.signature,
            )
            &&& proof.targets.committee matches Some(next) ==> {
                &&& fields.next_epoch_committee is Some
                &&& next@.epoch == fields.epoch + 1
                &&& forall|name: AuthorityName| #[trigger]
                    stake_of(next@.members, name) == stake_of(
                        fields.next_epoch_committee->0,
                        name,
                    )
            }
            &&& match proof.contents_proof {
                Some(evidence) => {
                    let (transaction, events_digest) = effects_fields_of(
                        evidence@.effects.bcs,
                    )->0;
                    let effects = effects_digest_of(evidence@.effects.bcs)->0;
                    let contents = evidence@.checkpoint_contents.bcs;
                    &&& contents_digest_of(contents) == Some(fields.contents_digest)
                    &&& contents_transactions_of(contents)->0.contains(
                        ExecutionDigests { transaction, effects },
                    )
                    &&& transaction_digest_of(evidence@.transaction.bcs) == Some(transaction)
                    &&& match evidence.events {
                        Some(events) => events_digest is Some && events_digest_of(
                            events@.events,
                        ) == events_digest,
                        None => events_digest is None,
                    }
                    &&& forall|i: int|
                        0 <= i < proof.targets.events@.len() ==> {
                            let (id, event) = #[trigger] proof.targets.events@[i];
                            &&& id.tx_digest == transaction
                            &&& evidence.events is Some
                            &&& id.event_seq < evidence.events->0@.events.len()
                            &&& evidence.events->0@.events[id.event_seq as int] == event.bcs@
                        }
                    &&& forall|i: int|
                        0 <= i < proof.targets.objects@.len() ==> {
                            let (reference, object) = #[trigger] proof.targets.objects@[i];
                            &&& object_reference_of(object@.bcs) == Some(reference)
                            &&& changed_objects_of(evidence@.effects.bcs)->0.contains(
                                reference,
                            )
                        }
                },
                None => proof.targets.events@.len() == 0 && proof.targets.objects@.len()
                    == 0,
            }
        }),
{
    let contents = match &proof.contents_proof {
        Some(transaction_proof) => Some(&transaction_proof.checkpoint_contents),
        None => None,
    };
    let certified = proof.checkpoint_summary.verify_with_contents(committee, contents);
    judge_proof(certified, proof)
}

/// Judges a proof whose checkpoint has been checked for certification.
pub fn judge_proof(certified: Result<(), CertificationError>, proof: &Proof) -> (verified: Result<
    (),
    VerifyError,
>)
    ensures
        verified == verdict_given(certified, proof@),
        verified is Ok <==> ({
            let fields = summary_fields(proof.checkpoint_summary@.bcs)->0;
            &&& certified is Ok
            &&& proof.targets.committee matches Some(next) ==> {
                &&& fields.next_epoch_committee is Some
                &&& next@.epoch == fields.epoch + 1
                &&& forall|name: AuthorityName| #[trigger]
                    stake_of(next@.members, name) == stake_of(
                        fields.next_epoch_committee->0,
                        name,
                    )
            }
            &&& match proof.contents_proof {
                Some(evidence) => {
                    let (transaction, events_digest) = effects_fields_of(
                        evidence@.effects.bcs,
                    )->0;
                    let effects = effects_digest_of(evidence@.effects.bcs)->0;
                    let contents = evidence@.checkpoint_contents.bcs;
                    &&& contents_transactions_of(contents)->0.contains(
                        ExecutionDigests { transaction, effects },
                    )
                    &&& transaction_digest_of(evidence@.transaction.bcs) == Some(transaction)
                    &&& match evidence.events {
                        Some(events) => events_digest is Some && events_digest_of(
                            events@.events,
                        ) == events_digest,
                        None => events_digest is None,
                    }
                    &&& forall|i: int|
                        0 <= i < proof.targets.events@.len() ==> {
                            let (id, event) = #[trigger] proof.targets.events@[i];
                            &&& id.tx_digest == transaction
                            &&& evidence.events is Some
                            &&& id.event_seq < evidence.events->0@.events.len()
                            &&& evidence.events->0@.events[id.event_seq as int] == event.bcs@
                        }
                    &&& forall|i: int|
                        0 <= i < proof.targets.objects@.len() ==> {
                            let (reference, object) = #[trigger] proof.targets.objects@[i];
                            &&& object_reference_of(object@.bcs) == Some(reference)
                            &&& changed_objects_of(evidence@.effects.bcs)->0.contains(
                                reference,
                            )
                        }
                },
                None => proof.targets.events@.len() == 0 && proof.targets.objects@.len()
                    == 0,
            }
        }),
{
    match certified {
        Ok(()) => {},
        Err(error) => return Err(VerifyError::Certification(error)),
    }
    let summary = &proof.checkpoint_summary;
    match verify_committee_target(summary, &proof.targets) {
        Ok(()) => {},
        Err(error) => return Err(error),
    }
    match verify_required_transaction_proof(proof) {
        Ok(()) => {},
        Err(error) => return Err(error),
    }
    match &proof.contents_proof {
        Some(transaction_proof) => {
            match verify_transaction_proof(transaction_proof) {
                Ok(()) => {},
                Err(error) => return Err(error),
            }
            match verify_event_targets(&proof.targets, transaction_proof) {
                Ok(()) => {},
                Err(error) => return Err(error),
            }
            verify_object_targets(&proof.targets, transaction_proof)
        },
        None => Ok(()),
    }
}

/// Verifies that the summary names the committee to be proved as the next one.
pub fn verify_committee_target(
    summary: &CertifiedCheckpointSummary,
    targets: &ProofTargets,
) -> (verified: Result<(), VerifyError>)
    ensures
        verified == committee_verdict(summary@, targets@.committee),
        verified is Ok <==> match targets.committee {
            Some(expected) => {
                let fields = summary_fields(summary@.bcs)->0;
                &&& fields.next_epoch_committee is Some
                &&& expected@.epoch == fields.epoch + 1
                &&& forall|name: AuthorityName| #[trigger]
                    stake_of(expected@.members, name) == stake_of(
                        fields.next_epoch_committee->0,
                        name,
                    )
            },
            None => true,
        },
{
    let expected = match &targets.committee {
        Some(expected) => expected,
        None => return Ok(()),
    };
    let rights = match summary.next_epoch_committee() {
        Some(rights) => rights,
        None => return Err(VerifyError::NoEndOfEpochCommittee),
    };
    let next_epoch: EpochId = match summary.epoch().checked_add(1) {
        Some(next_epoch) => next_epoch,
        None => return Err(VerifyError::NextEpochOverflow),
    };
    let actual = Committee::new(next_epoch, rights);
    let same = actual.same(expected);
    proof {
        if expected@.is_committee_of(next_epoch, rights@) {
            law_one_committee(actual@, expected@, next_epoch, rights@);
        }
    }
    if same {
        Ok(())
    } else {
        Err(VerifyError::CommitteeMismatch)
    }
}

/// Verifies that the evidence that the targets need is there.
pub fn verify_required_transaction_proof(proof: &Proof) -> (verified: Result<(), VerifyError>)
    ensures
        verified == evidence_verdict(proof@),
        verified is Ok <==> proof.contents_proof is Some || (proof.targets.objects@.len() == 0
            && proof.targets.events@.len() == 0),
{
    if (proof.targets.objects.len() > 0 || proof.targets.events.len() > 0)
        && proof.contents_proof.is_none() {
        Err(VerifyError::ContentsProofMissing)
    } else {
        Ok(())
    }
}

/// Verifies that the checkpoint contents list the execution of the transaction
/// with these effects and events.
pub fn verify_transaction_proof(transaction_proof: &TransactionProof) -> (verified: Result<
    (),
    VerifyError,
>)
    ensures
        verified == transaction_verdict(transaction_proof@),
        verified is Ok <==> ({
            let (transaction, events_digest) = effects_fields_of(transaction_proof@.effects.bcs)->0;
            let effects = effects_digest_of(transaction_proof@.effects.bcs)->0;
            let listed = contents_transactions_of(
                transaction_proof@.checkpoint_contents.bcs,
            )->0;
            &&& transaction_digest_of(transaction_proof@.transaction.bcs) == Some(transaction)
            &&& listed.contains(ExecutionDigests { transaction, effects })
            &&& match transaction_proof.events {
                Some(events) => events_digest is Some && events_digest_of(events@.events)
                    == events_digest,
                None => events_digest is None,
            }
        }),
{
    let execution_digests = transaction_proof.effects.execution_digests();
    if !same_digest(transaction_proof.transaction.digest(), &execution_digests.transaction) {
        return Err(VerifyError::TransactionDigestMismatch);
    }
    if !transaction_proof.checkpoint_contents.lists(&execution_digests) {
        return Err(VerifyError::TransactionNotInCheckpoint);
    }
    let events_digest = match &transaction_proof.events {
        Some(events) => Some(*events.digest()),
        None => None,
    };
    if !same_optional_digest(transaction_proof.effects.events_digest(), &events_digest) {
        return Err(VerifyError::EventsDigestMismatch);
    }
    Ok(())
}

/// Verifies that the transaction emitted all events to be proved.
pub fn verify_event_targets(
    targets: &ProofTargets,
    transaction_proof: &TransactionProof,
) -> (verified: Result<(), VerifyError>)
    ensures
        verified == events_verdict(targets@.events, transaction_proof@),
        verified is Ok <==> forall|i: int|
            0 <= i < targets.events@.len() ==> {
                let (id, event) = #[trigger] targets.events@[i];
                &&& id.tx_digest == (effects_fields_of(transaction_proof@.effects.bcs)->0).0
                &&& transaction_proof.events is Some
                &&& id.event_seq < transaction_proof.events->0@.events.len()
                &&& transaction_proof.events->0@.events[id.event_seq as int] == event.bcs@
            },
{
    if targets.events.len() == 0 {
        return Ok(());
    }
    let events = match &transaction_proof.events {
        Some(events) => events.events(),
        None => return Err(VerifyError::EventsMissing),
    };
    let transaction = transaction_proof.effects.execution_digests().transaction;
    let ghost verdicts = event_verdicts(transaction, encodings(events@), targets@.events);
    let mut i: usize = 0;
    while i < targets.events.len()
        invariant
            i <= targets.events@.len(),
            verdicts == event_verdicts(transaction, encodings(events@), targets@.events),
            first_failure(verdicts) == events_verdict(targets@.events, transaction_proof@),
            first_failure(verdicts.take(i as int)) is Ok,
            transaction == (effects_fields_of(transaction_proof@.effects.bcs)->0).0,
            transaction_proof.events is Some,
            events@.len() == transaction_proof.events->0@.events.len(),
            forall|j: int|
                0 <= j < events@.len() ==> (#[trigger] events@[j]).bcs@
                    == transaction_proof.events->0@.events[j],
            forall|j: int|
                0 <= j < i ==> {
                    let (id, event) = #[trigger] targets.events@[j];
                    &&& id.tx_digest == transaction
                    &&& id.event_seq < events@.len()
                    &&& events@[id.event_seq as int].bcs@ == event.bcs@
                },
        decreases targets.events@.len() - i,
    {
        let target = &targets.events[i];
        let verdict = verify_event(&transaction, events, &target.0, &target.1);
        proof {
            assert(verdict == verdicts[i as int]);
            assert(verdicts.take(i + 1).drop_last() =~= verdicts.take(i as int));
        }
        match verdict {
            Ok(()) => {},
            Err(error) => {
                proof {
                    lemma_failure_stays(verdicts, i + 1);
                }
                return Err(error);
            },
        }
        i = i + 1;
    }
    assert(verdicts.take(i as int) =~= verdicts);
    Ok(())
}

/// Verifies that the transaction with the digest `transaction`, which emitted
/// `events`, emitted `event` at `id`.
pub fn verify_event(
    transaction: &Digest,
    events: &Vec<Event>,
    id: &EventID,
    event: &Event,
) -> (verified: Result<(), VerifyError>)
    ensures
        verified == event_verdict(*transaction, encodings(events@), *id, event@),
        verified is Ok <==> {
            &&& id.tx_digest == *transaction
            &&& id.event_seq < events@.len()
            &&& events@[id.event_seq as int].bcs@ == event.bcs@
        },
{
    if !same_digest(&id.tx_digest, transaction) {
        return Err(VerifyError::EventOfOtherTransaction);
    }
    if id.event_seq >= events.len() as u64 {
        return Err(VerifyError::EventOutOfBounds);
    }
    if events[id.event_seq as usize].same(event) {
        Ok(())
    } else {
        Err(VerifyError::EventMismatch)
    }
}

/// Verifies that the transaction wrote all objects to be proved.
pub fn verify_object_targets(
    targets: &ProofTargets,
    transaction_proof: &TransactionProof,
) -> (verified: Result<(), VerifyError>)
    ensures
        verified == objects_verdict(targets@.objects, transaction_proof@),
        verified is Ok <==> forall|i: int|
            0 <= i < targets.objects@.len() ==> {
                let (reference, object) = #[trigger] targets.objects@[i];
                &&& object_reference_of(object@.bcs) == Some(reference)
                &&& changed_objects_of(transaction_proof@.effects.bcs)->0.contains(reference)
            },
{
    let changed = transaction_proof.effects.all_changed_objects();
    let ghost verdicts = object_verdicts(changed@, targets@.objects);
    let mut i: usize = 0;
    while i < targets.objects.len()
        invariant
            i <= targets.objects@.len(),
            verdicts == object_verdicts(changed@, targets@.objects),
            first_failure(verdicts) == objects_verdict(targets@.objects, transaction_proof@),
            first_failure(verdicts.take(i as int)) is Ok,
            changed_objects_of(transaction_proof@.effects.bcs) == Some(changed@),
            forall|j: int|
                0 <= j < i ==> {
                    let (reference, object) = #[trigger] targets.objects@[j];
                    &&& object_reference_of(object@.bcs) == Some(reference)
                    &&& changed@.contains(reference)
                },
        decreases targets.objects@.len() - i,
    {
        let target = &targets.objects[i];
        let verdict = verify_object(changed, &target.0, &target.1);
        proof {
            assert(verdict == verdicts[i as int]);
            assert(verdicts.take(i + 1).drop_last() =~= verdicts.take(i as int));
        }
        match verdict {
            Ok(()) => {},
            Err(error) => {
                proof {
                    lemma_failure_stays(verdicts, i + 1);
                }
                return Err(error);
            },
        }
        i = i + 1;
    }
    assert(verdicts.take(i as int) =~= verdicts);
    Ok(())
}

/// Verifies that `reference` is that of `object` and among the `changed` ones.
pub fn verify_object(
    changed: &Vec<ObjectRef>,
    reference: &ObjectRef,
    object: &Object,
) -> (verified: Result<(), VerifyError>)
    ensures
        verified == object_verdict(changed@, *reference, object@.reference),
        verified is Ok <==> object_reference_of(object@.bcs) == Some(*reference)
            && changed@.contains(*reference),
        verified is Err ==> verified->Err_0 == if object_reference_of(object@.bcs) == Some(
            *reference,
        ) {
            VerifyError::ObjectNotFound
        } else {
            VerifyError::ObjectReferenceMismatch
        },
{
    if !reference.same(&object.compute_object_reference()) {
        return Err(VerifyError::ObjectReferenceMismatch);
    }
    let mut i: usize = 0;
    while i < changed.len()
        invariant
            i <= changed@.len(),
            *reference == object@.reference,
            object_reference_of(object@.bcs) == Some(*reference),
            forall|j: int| 0 <= j < i ==> changed@[j] != *reference,
        decreases changed@.len() - i,
    {
        if changed[i].same(reference) {
            assert(changed@[i as int] == *reference);
            return Ok(());
        }
        i = i + 1;
    }
    Err(VerifyError::ObjectNotFound)
}

/// A failure among the first `n` verdicts is the first failure among all.
proof fn lemma_failure_stays(verdicts: Seq<Result<(), VerifyError>>, n: int)
    requires
        0 <= n <= verdicts.len(),
        first_failure(verdicts.take(n)) is Err,
    ensures
        first_failure(verdicts) == first_failure(verdicts.take(n)),
    decreases verdicts.len() - n,
{
    if n < verdicts.len() {
        assert(verdicts.take(n + 1).drop_last() =~= verdicts.take(n));
        lemma_failure_stays(verdicts, n + 1);
    } else {
        assert(verdicts.take(n) =~= verdicts);
    }
}

} // verus!
