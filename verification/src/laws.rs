//! What holds of proofs and committee walks as a whole.

use vstd::prelude::*;

use crate::bytes::Digest;
use crate::checkpoint::{certification, signatures_verdict, ExecutionDigests, SummaryView};
use crate::committee::{law_one_committee, AuthorityName, CommitteeView, EpochId, VotingRights};
use crate::error::{CertificationError, VerifyError};
use crate::object::{ObjectRef, ObjectView};
use crate::proofs::{
    committee_verdict, event_verdict, event_verdicts, events_verdict, first_failure, no_targets,
    object_verdict, object_verdicts, objects_verdict, presented_events_digest, proof_verdict,
    transaction_verdict, ProofView, TargetsView, TransactionProofView,
};
use crate::response::{
    holds_committee, is_served_committee, served_contents, served_effects, served_events,
    served_proof, served_summary, served_transaction, CheckpointResponseView,
    CommitteeMessageView, ExecutedTransactionView,
};
use crate::sdk::quorum_signed;
use crate::transaction::EventID;
use crate::walk::{authenticates, lineage, names_next, WalkView};

verus! {

/// The proof holds against the committee.
pub open spec fn accepted(committee: CommitteeView, proof: ProofView) -> bool {
    proof_verdict(committee, proof) is Ok
}

/// A quorum of the committee signed the summary, and the summary, its signature
/// and the committee are of one epoch.
pub open spec fn certified(committee: CommitteeView, summary: SummaryView) -> bool {
    &&& summary.epoch == committee.epoch
    &&& summary.signature_epoch == committee.epoch
    &&& quorum_signed(committee.epoch, committee.members, summary.bcs, summary.signature)
}

/// The transaction emitted `event` at `id`.
pub open spec fn emitted(proof: TransactionProofView, id: EventID, event: Seq<u8>) -> bool {
    &&& id.tx_digest == proof.transaction.digest
    &&& proof.events matches Some(events) && id.event_seq < events.events.len()
        && events.events[id.event_seq as int] == event
}

/// The transaction wrote `object`, and `reference` is its reference.
pub open spec fn wrote(
    proof: TransactionProofView,
    reference: ObjectRef,
    object: ObjectView,
) -> bool {
    reference == object.reference && proof.effects.changed_objects.contains(reference)
}

/// The checkpoint that `summary` commits to lists the transaction, with these
/// effects and events.
pub open spec fn included(summary: SummaryView, proof: TransactionProofView) -> bool {
    &&& proof.checkpoint_contents.digest == summary.contents_digest
    &&& proof.transaction.digest == proof.effects.digests.transaction
    &&& proof.checkpoint_contents.transactions.contains(proof.effects.digests)
    &&& proof.effects.events_digest == presented_events_digest(proof.events)
}

/// Verdict `i` is the failure `error`, and none before it is a failure.
pub open spec fn fails_first(
    verdicts: Seq<Result<(), VerifyError>>,
    i: int,
    error: VerifyError,
) -> bool {
    &&& 0 <= i < verdicts.len()
    &&& verdicts[i] == Err::<(), _>(error)
    &&& forall|j: int| 0 <= j < i ==> (#[trigger] verdicts[j]) is Ok
}

/// The first failure of a list of verdicts is none where all are good, and
/// otherwise the first one that is not.
pub proof fn law_first_failure(verdicts: Seq<Result<(), VerifyError>>)
    ensures
        match first_failure(verdicts) {
            Ok(()) => forall|i: int| 0 <= i < verdicts.len() ==> (#[trigger] verdicts[i]) is Ok,
            Err(error) => exists|i: int| fails_first(verdicts, i, error),
        },
    decreases verdicts.len(),
{
    if verdicts.len() > 0 {
        let front = verdicts.drop_last();
        law_first_failure(front);
        assert(forall|i: int| 0 <= i < front.len() ==> front[i] == #[trigger] verdicts[i]);
        assert(verdicts[verdicts.len() - 1] == verdicts.last());
        match first_failure(front) {
            Ok(()) => {
                assert forall|j: int| 0 <= j < front.len() implies (
                #[trigger] verdicts[j]) is Ok by {
                    assert(front[j] is Ok);
                }
                if verdicts.last() is Err {
                    assert(fails_first(verdicts, verdicts.len() - 1, verdicts.last()->Err_0));
                }
            },
            Err(error) => {
                let i = choose|i: int| fails_first(front, i, error);
                assert forall|j: int| 0 <= j < i implies (#[trigger] verdicts[j]) is Ok by {
                    assert(front[j] is Ok);
                }
                assert(fails_first(verdicts, i, error));
            },
        }
    }
}

/// A proof holds exactly where its checkpoint is certified, a committee to be
/// proved is the one that the checkpoint names, and, where objects or events are
/// to be proved, the checkpoint includes a transaction that wrote all of the
/// objects and emitted all of the events.
pub proof fn law_accepted_means_proved(committee: CommitteeView, proof: ProofView)
    ensures
        accepted(committee, proof) <==> {
            &&& certified(committee, proof.checkpoint_summary)
            &&& proof.targets.committee matches Some(next) ==> names_next(
                proof.checkpoint_summary,
                next,
            )
            &&& match proof.contents_proof {
                Some(evidence) => {
                    &&& included(proof.checkpoint_summary, evidence)
                    &&& forall|i: int|
                        0 <= i < proof.targets.events.len() ==> emitted(
                            evidence,
                            (#[trigger] proof.targets.events[i]).0,
                            proof.targets.events[i].1,
                        )
                    &&& forall|i: int|
                        0 <= i < proof.targets.objects.len() ==> wrote(
                            evidence,
                            (#[trigger] proof.targets.objects[i]).0,
                            proof.targets.objects[i].1,
                        )
                },
                None => proof.targets.events.len() == 0 && proof.targets.objects.len() == 0,
            }
        },
{
    match proof.contents_proof {
        Some(evidence) => {
            if transaction_verdict(evidence) is Ok {
                lemma_events_verdict(proof.targets.events, evidence);
                lemma_objects_verdict(proof.targets.objects, evidence);
            }
        },
        None => {},
    }
}

/// The event targets hold exactly where each of them was emitted.
proof fn lemma_events_verdict(targets: Seq<(EventID, Seq<u8>)>, evidence: TransactionProofView)
    requires
        transaction_verdict(evidence) is Ok,
    ensures
        events_verdict(targets, evidence) is Ok <==> forall|i: int|
            0 <= i < targets.len() ==> emitted(evidence, (#[trigger] targets[i]).0, targets[i].1),
{
    match evidence.events {
        Some(events) => {
            let verdicts = event_verdicts(
                evidence.effects.digests.transaction,
                events.events,
                targets,
            );
            law_first_failure(verdicts);
            assert forall|i: int| 0 <= i < targets.len() implies (verdicts[i] is Ok) == emitted(
                evidence,
                (#[trigger] targets[i]).0,
                targets[i].1,
            ) by {
                assert(verdicts[i] == event_verdict(
                    evidence.effects.digests.transaction,
                    events.events,
                    targets[i].0,
                    targets[i].1,
                ));
            }
            if forall|i: int|
                0 <= i < targets.len() ==> emitted(
                    evidence,
                    (#[trigger] targets[i]).0,
                    targets[i].1,
                ) {
                assert forall|i: int| 0 <= i < verdicts.len() implies (
                #[trigger] verdicts[i]) is Ok by {
                    assert(emitted(evidence, targets[i].0, targets[i].1));
                }
            }
            if events_verdict(targets, evidence) is Ok {
                assert forall|i: int| 0 <= i < targets.len() implies emitted(
                    evidence,
                    (#[trigger] targets[i]).0,
                    targets[i].1,
                ) by {
                    assert(verdicts[i] is Ok);
                }
            }
        },
        None => {
            if targets.len() > 0 {
                assert(!emitted(evidence, targets[0].0, targets[0].1));
            }
        },
    }
}

/// The object targets hold exactly where each of them was written.
proof fn lemma_objects_verdict(
    targets: Seq<(ObjectRef, ObjectView)>,
    evidence: TransactionProofView,
)
    ensures
        objects_verdict(targets, evidence) is Ok <==> forall|i: int|
            0 <= i < targets.len() ==> wrote(evidence, (#[trigger] targets[i]).0, targets[i].1),
{
    let verdicts = object_verdicts(evidence.effects.changed_objects, targets);
    law_first_failure(verdicts);
    assert forall|i: int| 0 <= i < targets.len() implies (verdicts[i] is Ok) == wrote(
        evidence,
        (#[trigger] targets[i]).0,
        targets[i].1,
    ) by {
        assert(verdicts[i] == object_verdict(
            evidence.effects.changed_objects,
            targets[i].0,
            targets[i].1.reference,
        ));
    }
    if forall|i: int|
        0 <= i < targets.len() ==> wrote(evidence, (#[trigger] targets[i]).0, targets[i].1) {
        assert forall|i: int| 0 <= i < verdicts.len() implies (#[trigger] verdicts[i]) is Ok by {
            assert(wrote(evidence, targets[i].0, targets[i].1));
        }
    }
    if objects_verdict(targets, evidence) is Ok {
        assert forall|i: int| 0 <= i < targets.len() implies wrote(
            evidence,
            (#[trigger] targets[i]).0,
            targets[i].1,
        ) by {
            assert(verdicts[i] is Ok);
        }
    }
}

/// Empty targets still prove that the checkpoint summary is certified: a proof
/// of nothing else holds exactly where it is.
pub proof fn law_empty_targets_prove_certification(committee: CommitteeView, proof: ProofView)
    requires
        proof.targets == no_targets(),
        proof.contents_proof is None,
    ensures
        accepted(committee, proof) <==> certified(committee, proof.checkpoint_summary),
{
    law_accepted_means_proved(committee, proof);
}

/// Objects and events are proved by a transaction or not at all.
pub proof fn law_targets_need_evidence(committee: CommitteeView, proof: ProofView)
    requires
        proof.targets.objects.len() > 0 || proof.targets.events.len() > 0,
        proof.contents_proof is None,
    ensures
        !accepted(committee, proof),
        certified(committee, proof.checkpoint_summary) && committee_verdict(
            proof.checkpoint_summary,
            proof.targets.committee,
        ) is Ok ==> proof_verdict(committee, proof) == Err::<(), _>(
            VerifyError::ContentsProofMissing,
        ),
{
}

/// A summary that the committee did not certify is rejected, whatever else the
/// proof holds.
pub proof fn law_uncertified_summary_is_rejected(committee: CommitteeView, proof: ProofView)
    requires
        !certified(committee, proof.checkpoint_summary),
    ensures
        signatures_verdict(committee, proof.checkpoint_summary) is Err,
        proof_verdict(committee, proof) == Err::<(), _>(
            VerifyError::Certification(
                signatures_verdict(committee, proof.checkpoint_summary)->Err_0,
            ),
        ),
{
}

/// Beside a summary for which one proof holds, checkpoint contents with another
/// digest are rejected.
pub proof fn law_altered_contents_are_rejected(
    committee: CommitteeView,
    proof: ProofView,
    altered: ProofView,
)
    requires
        accepted(committee, proof),
        proof.contents_proof is Some,
        altered.contents_proof is Some,
        altered.checkpoint_summary == proof.checkpoint_summary,
        altered.contents_proof->0.checkpoint_contents.digest
            != proof.contents_proof->0.checkpoint_contents.digest,
    ensures
        proof_verdict(committee, altered) == Err::<(), _>(
            VerifyError::Certification(CertificationError::ContentsDigest),
        ),
{
}

/// A proof that holds does not hold with a transaction that has another digest.
pub proof fn law_altered_transaction_is_rejected(
    committee: CommitteeView,
    proof: ProofView,
    altered: ProofView,
)
    requires
        accepted(committee, proof),
        proof.contents_proof is Some,
        altered.contents_proof is Some,
        altered == (ProofView { contents_proof: altered.contents_proof, ..proof }),
        altered.contents_proof->0 == (TransactionProofView {
            transaction: altered.contents_proof->0.transaction,
            ..proof.contents_proof->0
        }),
        altered.contents_proof->0.transaction.digest != proof.contents_proof->0.transaction.digest,
    ensures
        proof_verdict(committee, altered) == Err::<(), _>(VerifyError::TransactionDigestMismatch),
{
}

/// Each transaction is listed at most once.
pub open spec fn lists_once(transactions: Seq<ExecutionDigests>) -> bool {
    forall|i: int, j: int|
        0 <= i < j < transactions.len() ==> (#[trigger] transactions[i]).transaction != (
        #[trigger] transactions[j]).transaction
}

/// A proof that holds does not hold with effects that have another digest, given
/// that the checkpoint lists no transaction twice.
pub proof fn law_altered_effects_are_rejected(
    committee: CommitteeView,
    proof: ProofView,
    altered: ProofView,
)
    requires
        accepted(committee, proof),
        proof.contents_proof is Some,
        altered.contents_proof is Some,
        altered == (ProofView { contents_proof: altered.contents_proof, ..proof }),
        altered.contents_proof->0 == (TransactionProofView {
            effects: altered.contents_proof->0.effects,
            ..proof.contents_proof->0
        }),
        altered.contents_proof->0.effects.digests.effects
            != proof.contents_proof->0.effects.digests.effects,
        lists_once(proof.contents_proof->0.checkpoint_contents.transactions),
    ensures
        !accepted(committee, altered),
{
    let before = proof.contents_proof->0;
    let after = altered.contents_proof->0;
    let listed = before.checkpoint_contents.transactions;
    if accepted(committee, altered) {
        let i = choose|i: int| 0 <= i < listed.len() && listed[i] == before.effects.digests;
        let j = choose|j: int| 0 <= j < listed.len() && listed[j] == after.effects.digests;
        assert(listed[i].transaction == listed[j].transaction);
    }
}

/// A proof that holds does not hold with events that have another digest, with
/// events where there were none, or without the events.
pub proof fn law_altered_events_are_rejected(
    committee: CommitteeView,
    proof: ProofView,
    altered: ProofView,
)
    requires
        accepted(committee, proof),
        proof.contents_proof is Some,
        altered.contents_proof is Some,
        altered == (ProofView { contents_proof: altered.contents_proof, ..proof }),
        altered.contents_proof->0 == (TransactionProofView {
            events: altered.contents_proof->0.events,
            ..proof.contents_proof->0
        }),
        presented_events_digest(altered.contents_proof->0.events) != presented_events_digest(
            proof.contents_proof->0.events,
        ),
    ensures
        proof_verdict(committee, altered) == Err::<(), _>(VerifyError::EventsDigestMismatch),
{
}

/// Two proofs that hold and present the same events agree on the event at each
/// place: an event target that was altered is rejected.
pub proof fn law_altered_event_target_is_rejected(
    committee: CommitteeView,
    proof: ProofView,
    altered: ProofView,
    i: int,
    j: int,
)
    requires
        accepted(committee, proof),
        altered.contents_proof == proof.contents_proof,
        0 <= i < proof.targets.events.len(),
        0 <= j < altered.targets.events.len(),
        altered.targets.events[j].0 == proof.targets.events[i].0,
        altered.targets.events[j].1 != proof.targets.events[i].1,
    ensures
        !accepted(committee, altered),
{
    law_accepted_means_proved(committee, proof);
    law_accepted_means_proved(committee, altered);
}

/// Two proofs that hold agree on the reference of the object that has it: an
/// object target whose object was altered, so that its reference is another, is
/// rejected.
pub proof fn law_altered_object_target_is_rejected(
    committee: CommitteeView,
    proof: ProofView,
    altered: ProofView,
    i: int,
    j: int,
)
    requires
        accepted(committee, proof),
        0 <= i < proof.targets.objects.len(),
        0 <= j < altered.targets.objects.len(),
        altered.targets.objects[j].0 == proof.targets.objects[i].0,
        altered.targets.objects[j].1.reference != proof.targets.objects[i].1.reference,
    ensures
        !accepted(committee, altered),
{
    law_accepted_means_proved(committee, proof);
    law_accepted_means_proved(committee, altered);
}

/// With one more object target a proof holds exactly where it held before and the
/// transaction wrote that object.
pub proof fn law_one_more_object(
    committee: CommitteeView,
    proof: ProofView,
    reference: ObjectRef,
    object: ObjectView,
)
    ensures
        accepted(
            committee,
            ProofView {
                targets: TargetsView {
                    objects: proof.targets.objects.push((reference, object)),
                    ..proof.targets
                },
                ..proof
            },
        ) <==> accepted(committee, proof) && proof.contents_proof is Some && wrote(
            proof.contents_proof->0,
            reference,
            object,
        ),
{
    let objects = proof.targets.objects.push((reference, object));
    let more = ProofView { targets: TargetsView { objects, ..proof.targets }, ..proof };
    law_accepted_means_proved(committee, proof);
    law_accepted_means_proved(committee, more);
    assert(objects[objects.len() - 1] == (reference, object));
    assert(forall|i: int|
        0 <= i < proof.targets.objects.len() ==> objects[i] == #[trigger] proof.targets.objects[i]);
    if accepted(committee, more) {
        let evidence = proof.contents_proof->0;
        assert forall|i: int| 0 <= i < proof.targets.objects.len() implies wrote(
            evidence,
            (#[trigger] proof.targets.objects[i]).0,
            proof.targets.objects[i].1,
        ) by {
            assert(wrote(evidence, objects[i].0, objects[i].1));
        }
    }
}

/// With one more event target a proof holds exactly where it held before and the
/// transaction emitted that event.
pub proof fn law_one_more_event(
    committee: CommitteeView,
    proof: ProofView,
    id: EventID,
    event: Seq<u8>,
)
    ensures
        accepted(
            committee,
            ProofView {
                targets: TargetsView {
                    events: proof.targets.events.push((id, event)),
                    ..proof.targets
                },
                ..proof
            },
        ) <==> accepted(committee, proof) && proof.contents_proof is Some && emitted(
            proof.contents_proof->0,
            id,
            event,
        ),
{
    let events = proof.targets.events.push((id, event));
    let more = ProofView { targets: TargetsView { events, ..proof.targets }, ..proof };
    law_accepted_means_proved(committee, proof);
    law_accepted_means_proved(committee, more);
    assert(events[events.len() - 1] == (id, event));
    assert(forall|i: int|
        0 <= i < proof.targets.events.len() ==> events[i] == #[trigger] proof.targets.events[i]);
    if accepted(committee, more) {
        let evidence = proof.contents_proof->0;
        assert forall|i: int| 0 <= i < proof.targets.events.len() implies emitted(
            evidence,
            (#[trigger] proof.targets.events[i]).0,
            proof.targets.events[i].1,
        ) by {
            assert(emitted(evidence, events[i].0, events[i].1));
        }
    }
}

/// With a committee target a proof holds exactly where it holds without one and
/// its checkpoint authenticates that committee.
pub proof fn law_committee_target(committee: CommitteeView, proof: ProofView, next: CommitteeView)
    ensures
        accepted(
            committee,
            ProofView {
                targets: TargetsView { committee: Some(next), ..proof.targets },
                ..proof
            },
        ) <==> accepted(
            committee,
            ProofView { targets: TargetsView { committee: None, ..proof.targets }, ..proof },
        ) && authenticates(committee, proof.checkpoint_summary, next),
{
    law_accepted_means_proved(
        committee,
        ProofView { targets: TargetsView { committee: Some(next), ..proof.targets }, ..proof },
    );
    law_accepted_means_proved(
        committee,
        ProofView { targets: TargetsView { committee: None, ..proof.targets }, ..proof },
    );
}

/// A proof built from what a node serves is about the transaction that was asked
/// for and has no targets: it is judged by its certification and then by its
/// transaction. Where it holds, the certified checkpoint lists an execution of
/// that transaction.
pub proof fn law_built_proof(
    committee: CommitteeView,
    asked: Digest,
    transaction: ExecutedTransactionView,
    checkpoint: CheckpointResponseView,
)
    requires
        served_proof(asked, transaction, checkpoint) is Ok,
    ensures
        ({
            let built = served_proof(asked, transaction, checkpoint)->Ok_0;
            let summary = served_summary(checkpoint)->Ok_0;
            let contents = served_contents(checkpoint)->Ok_0;
            let evidence = built.contents_proof->0;
            &&& built.targets == no_targets()
            &&& built.checkpoint_summary == summary
            &&& built.contents_proof is Some
            &&& evidence.checkpoint_contents == contents
            &&& evidence.transaction == served_transaction(transaction)->Ok_0
            &&& evidence.transaction.digest == asked
            &&& evidence.effects == served_effects(transaction)->Ok_0
            &&& evidence.events == served_events(transaction, evidence.effects.events_digest)->Ok_0
            &&& proof_verdict(committee, built) == match certification(
                committee,
                summary,
                Some(contents),
            ) {
                Err(error) => Err(VerifyError::Certification(error)),
                Ok(()) => transaction_verdict(evidence),
            }
            &&& accepted(committee, built) ==> {
                &&& certified(committee, summary)
                &&& contents.digest == summary.contents_digest
                &&& executes(contents.transactions, asked)
            }
        }),
{
    let built = served_proof(asked, transaction, checkpoint)->Ok_0;
    let evidence = built.contents_proof->0;
    assert(object_verdicts(evidence.effects.changed_objects, built.targets.objects)
        =~= Seq::empty());
    match evidence.events {
        Some(events) => {
            assert(event_verdicts(
                evidence.effects.digests.transaction,
                events.events,
                built.targets.events,
            ) =~= Seq::empty());
        },
        None => {},
    }
    if accepted(committee, built) {
        let listed = evidence.checkpoint_contents.transactions;
        let i = choose|i: int| 0 <= i < listed.len() && listed[i] == evidence.effects.digests;
        assert(listed[i].transaction == asked);
    }
}

/// An execution of the transaction with this digest is listed.
pub open spec fn executes(transactions: Seq<ExecutionDigests>, digest: Digest) -> bool {
    exists|i: int| 0 <= i < transactions.len() && (#[trigger] transactions[i]).transaction == digest
}

/// The replies of an honest node to a request for the transaction `asked`: the
/// parts of one execution of it, and the checkpoint, certified by `committee`,
/// that lists this execution.
pub open spec fn honest_replies(
    committee: CommitteeView,
    asked: Digest,
    transaction: ExecutedTransactionView,
    checkpoint: CheckpointResponseView,
) -> bool {
    &&& served_summary(checkpoint) matches Ok(summary)
    &&& certified(committee, summary)
    &&& served_contents(checkpoint) matches Ok(contents)
    &&& contents.digest == summary.contents_digest
    &&& served_transaction(transaction) matches Ok(signed)
    &&& signed.digest == asked
    &&& served_effects(transaction) matches Ok(effects)
    &&& effects.digests.transaction == asked
    &&& contents.transactions.contains(effects.digests)
    &&& served_events(transaction, effects.events_digest) matches Ok(events)
    &&& presented_events_digest(events) == effects.events_digest
}

/// From the replies of an honest node a proof is built, and it holds against the
/// committee that certified the checkpoint.
pub proof fn law_honest_replies_make_a_proof(
    committee: CommitteeView,
    asked: Digest,
    transaction: ExecutedTransactionView,
    checkpoint: CheckpointResponseView,
)
    requires
        honest_replies(committee, asked, transaction, checkpoint),
    ensures
        served_proof(asked, transaction, checkpoint) is Ok,
        accepted(committee, served_proof(asked, transaction, checkpoint)->Ok_0),
{
    law_built_proof(committee, asked, transaction, checkpoint);
}

/// Where an honest node also serves the committee that certified the checkpoint,
/// the proof holds against the committee taken from its response.
pub proof fn law_honest_proof_holds_for_the_served_committee(
    committee: CommitteeView,
    asked: Digest,
    transaction: ExecutedTransactionView,
    checkpoint: CheckpointResponseView,
    response: CommitteeMessageView,
    rights: VotingRights,
    taken: CommitteeView,
)
    requires
        honest_replies(committee, asked, transaction, checkpoint),
        holds_committee(response, committee.epoch, rights),
        committee.is_committee_of(committee.epoch, rights),
        is_served_committee(Some(response), taken),
    ensures
        served_proof(asked, transaction, checkpoint) is Ok,
        taken == committee,
        accepted(taken, served_proof(asked, transaction, checkpoint)->Ok_0),
{
    let held = choose|held: VotingRights|
        #[trigger] holds_committee(response, taken.epoch, held) && taken.is_committee_of(
            taken.epoch,
            held,
        );
    assert forall|i: int| 0 <= i < held.len() implies held[i] == #[trigger] rights[i] by {
        let member = response.members->0[i];
        assert(member == (Some(held[i].0@), Some(held[i].1)));
        assert(member == (Some(rights[i].0@), Some(rights[i].1)));
        lemma_name_is_its_bytes(held[i].0, rights[i].0);
    }
    assert(held =~= rights);
    law_one_committee(taken, committee, committee.epoch, rights);
    law_honest_replies_make_a_proof(committee, asked, transaction, checkpoint);
}

/// A name is its bytes.
proof fn lemma_name_is_its_bytes(a: AuthorityName, b: AuthorityName)
    requires
        a@ == b@,
    ensures
        a == b,
{
    assert forall|i: int| 0 <= i < 96 implies a[i] == b[i] by {
        assert(a@[i] == b@[i]);
    }
    assert(a =~= b);
}

/// Where an honest node serves the transitions that led from the trusted
/// committee to the one that certified the checkpoint, the proof holds against
/// the committee reached by the walk.
pub proof fn law_honest_proof_holds_for_the_walked_committee(
    committee: CommitteeView,
    asked: Digest,
    transaction: ExecutedTransactionView,
    checkpoint: CheckpointResponseView,
    history: Seq<CommitteeView>,
    walk: WalkView,
)
    requires
        honest_replies(committee, asked, transaction, checkpoint),
        walk.well_formed(),
        lineage(history, walk.summaries),
        history[0] == walk.committees[0],
        history.last() == committee,
    ensures
        served_proof(asked, transaction, checkpoint) is Ok,
        walk.reached() == committee,
        accepted(walk.reached(), served_proof(asked, transaction, checkpoint)->Ok_0),
{
    law_lineage_is_determined(history, walk.committees, walk.summaries);
    law_honest_replies_make_a_proof(committee, asked, transaction, checkpoint);
}

/// In a lineage each epoch follows the one before.
pub proof fn law_lineage_epochs(
    committees: Seq<CommitteeView>,
    summaries: Seq<SummaryView>,
    i: int,
)
    requires
        lineage(committees, summaries),
        0 <= i < committees.len(),
    ensures
        committees[i].epoch == committees[0].epoch + i,
    decreases i,
{
    if i > 0 {
        law_lineage_epochs(committees, summaries, i - 1);
        assert(authenticates(committees[i - 1], summaries[i - 1], committees[i]));
    }
}

/// A walk that has no pending epoch has reached its target, with one certified
/// transition for each epoch since the trusted committee.
pub proof fn law_finished_walk(walk: WalkView)
    requires
        walk.well_formed(),
        !(walk.reached().epoch < walk.target_epoch),
    ensures
        walk.reached().epoch == walk.target_epoch,
        walk.summaries.len() == walk.target_epoch - walk.committees[0].epoch,
        lineage(walk.committees, walk.summaries),
{
    law_lineage_epochs(walk.committees, walk.summaries, walk.committees.len() - 1);
}

/// The trusted committee and the certified summaries leave no choice: they lead
/// through one row of committees.
pub proof fn law_lineage_is_determined(
    a: Seq<CommitteeView>,
    b: Seq<CommitteeView>,
    summaries: Seq<SummaryView>,
)
    requires
        lineage(a, summaries),
        lineage(b, summaries),
        a[0] == b[0],
    ensures
        a == b,
    decreases summaries.len(),
{
    if summaries.len() > 0 {
        let shorter = summaries.drop_last();
        let a_front = a.drop_last();
        let b_front = b.drop_last();
        lemma_shorter_lineage(a, summaries);
        lemma_shorter_lineage(b, summaries);
        law_lineage_is_determined(a_front, b_front, shorter);
        let n = summaries.len() as int;
        let summary = summaries[n - 1];
        assert(authenticates(a[n - 1], summary, a[n]));
        assert(authenticates(b[n - 1], summary, b[n]));
        law_one_committee(
            a[n],
            b[n],
            (summary.epoch + 1) as EpochId,
            summary.next_epoch_committee->0,
        );
        assert(a =~= a_front.push(a[n]));
        assert(b =~= b_front.push(b[n]));
    } else {
        assert(a =~= b);
    }
}

/// A committee authenticates at most one successor.
pub open spec fn unequivocal(committee: CommitteeView) -> bool {
    forall|s1: SummaryView, n1: CommitteeView, s2: SummaryView, n2: CommitteeView|
        #[trigger] authenticates(committee, s1, n1) && #[trigger] authenticates(committee, s2, n2)
            ==> n1 == n2
}

/// Whatever data a node serves, there is one committee to be reached: where no
/// committee on the way signs for two successors, two walks of the same length
/// from the same trusted committee pass the same committees.
pub proof fn law_walk_does_not_depend_on_the_node(
    a: Seq<CommitteeView>,
    a_summaries: Seq<SummaryView>,
    b: Seq<CommitteeView>,
    b_summaries: Seq<SummaryView>,
)
    requires
        lineage(a, a_summaries),
        lineage(b, b_summaries),
        a.len() == b.len(),
        a[0] == b[0],
        forall|i: int| 0 <= i < a_summaries.len() ==> unequivocal(#[trigger] a[i]),
    ensures
        a == b,
    decreases a.len(),
{
    if a_summaries.len() > 0 {
        let n = a_summaries.len() as int;
        let a_front = a.drop_last();
        let b_front = b.drop_last();
        lemma_shorter_lineage(a, a_summaries);
        lemma_shorter_lineage(b, b_summaries);
        assert forall|i: int| 0 <= i < a_summaries.drop_last().len() implies unequivocal(
            #[trigger] a_front[i],
        ) by {
            assert(a_front[i] == a[i]);
        }
        law_walk_does_not_depend_on_the_node(
            a_front,
            a_summaries.drop_last(),
            b_front,
            b_summaries.drop_last(),
        );
        assert(a_front[n - 1] == b_front[n - 1]);
        assert(unequivocal(a[n - 1]));
        assert(authenticates(a[n - 1], a_summaries[n - 1], a[n]));
        assert(authenticates(b[n - 1], b_summaries[n - 1], b[n]));
        assert(a =~= a_front.push(a[n]));
        assert(b =~= b_front.push(b[n]));
    } else {
        assert(a =~= b);
    }
}

/// A lineage without its last committee is a lineage.
proof fn lemma_shorter_lineage(committees: Seq<CommitteeView>, summaries: Seq<SummaryView>)
    requires
        lineage(committees, summaries),
        summaries.len() > 0,
    ensures
        lineage(committees.drop_last(), summaries.drop_last()),
{
    let shorter = summaries.drop_last();
    assert forall|i: int| 0 <= i < shorter.len() implies authenticates(
        committees.drop_last()[i],
        #[trigger] shorter[i],
        committees.drop_last()[i + 1],
    ) by {
        assert(authenticates(committees[i], summaries[i], committees[i + 1]));
    }
}

/// A walk can be resumed: a lineage to a committee and one from it make one
/// lineage.
pub proof fn law_lineages_join(
    earlier: Seq<CommitteeView>,
    earlier_summaries: Seq<SummaryView>,
    later: Seq<CommitteeView>,
    later_summaries: Seq<SummaryView>,
)
    requires
        lineage(earlier, earlier_summaries),
        lineage(later, later_summaries),
        earlier.last() == later[0],
    ensures
        lineage(earlier + later.drop_first(), earlier_summaries + later_summaries),
        (earlier + later.drop_first()).last() == later.last(),
        (earlier + later.drop_first())[0] == earlier[0],
{
    let committees = earlier + later.drop_first();
    let summaries = earlier_summaries + later_summaries;
    let n = earlier_summaries.len() as int;
    assert forall|i: int| 0 <= i < summaries.len() implies authenticates(
        committees[i],
        #[trigger] summaries[i],
        committees[i + 1],
    ) by {
        if i < n {
            assert(authenticates(earlier[i], earlier_summaries[i], earlier[i + 1]));
        } else {
            assert(authenticates(later[i - n], later_summaries[i - n], later[i - n + 1]));
            if i == n {
                assert(committees[i] == earlier.last());
            } else {
                assert(committees[i] == later[i - n]);
            }
        }
    }
}

/// Each transition of a walk can be shown to others: the certified summary proves
/// the next committee to anyone who trusts the one before.
pub proof fn law_transition_is_provable(
    current: CommitteeView,
    summary: SummaryView,
    next: CommitteeView,
)
    ensures
        authenticates(current, summary, next) <==> accepted(
            current,
            ProofView {
                targets: TargetsView { committee: Some(next), ..no_targets() },
                checkpoint_summary: summary,
                contents_proof: None,
            },
        ),
{
    law_accepted_means_proved(
        current,
        ProofView {
            targets: TargetsView { committee: Some(next), ..no_targets() },
            checkpoint_summary: summary,
            contents_proof: None,
        },
    );
}

} // verus!
