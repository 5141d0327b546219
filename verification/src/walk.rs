//! Walking from a trusted committee to that of a later epoch.

use vstd::prelude::*;

use crate::checkpoint::{
    signatures_verdict, summary_from_bcs, CertifiedCheckpointSummary, SummaryView,
};
use crate::committee::{stake_of, AuthorityName, Committee, CommitteeView, EpochId};
use crate::error::{CertificationError, DecodeError, WalkError};
use crate::response::{
    checkpoint_summary_from_response, served_summary, CheckpointResponse, CheckpointResponseView,
};
use crate::sdk::{quorum_signed, summary_fields};
use crate::views::result_view;

verus! {

/// Whether the committee of `target` can be sought from that of `trusted` at a
/// node that is in the epoch `node`, and if not, why.
pub open spec fn reach_verdict(trusted: EpochId, target: EpochId, node: EpochId) -> Result<
    (),
    WalkError,
> {
    if target < trusted {
        Err(WalkError::TargetBeforeTrusted { target, trusted })
    } else if target > node {
        Err(WalkError::TargetAheadOfNode { target, node })
    } else {
        Ok(())
    }
}

/// Verifies that the target epoch is neither before the trusted committee's nor
/// ahead of the node's.
pub fn ensure_target_epoch_is_reachable(
    trusted_epoch: EpochId,
    target_epoch: EpochId,
    node_current_epoch: EpochId,
) -> (reachable: Result<(), WalkError>)
    ensures
        reachable == reach_verdict(trusted_epoch, target_epoch, node_current_epoch),
{
    if target_epoch < trusted_epoch {
        return Err(
            WalkError::TargetBeforeTrusted { target: target_epoch, trusted: trusted_epoch },
        );
    }
    if target_epoch > node_current_epoch {
        return Err(
            WalkError::TargetAheadOfNode { target: target_epoch, node: node_current_epoch },
        );
    }
    Ok(())
}

/// `next` is the committee that `summary` names for the next epoch.
pub open spec fn names_next(summary: SummaryView, next: CommitteeView) -> bool {
    &&& summary.epoch < u64::MAX
    &&& summary.next_epoch_committee matches Some(rights) && next.is_committee_of(
        (summary.epoch + 1) as EpochId,
        rights,
    )
}

/// Why `summary`, that of the checkpoint `checkpoint`, names no next committee,
/// if it names none.
pub open spec fn next_committee_failure(summary: SummaryView, checkpoint: u64) -> Option<
    WalkError,
> {
    if summary.next_epoch_committee is None {
        Some(WalkError::NotEndOfEpoch { checkpoint })
    } else if summary.epoch == u64::MAX {
        Some(WalkError::NextEpochOverflow)
    } else {
        None
    }
}

/// The committee that the summary of the checkpoint `checkpoint_sequence_number`
/// names for the next epoch.
pub fn next_committee_from_end_of_epoch_summary(
    summary: &CertifiedCheckpointSummary,
    checkpoint_sequence_number: u64,
) -> (next: Result<Committee, WalkError>)
    ensures
        match next {
            Ok(next) => names_next(summary@, next@) && next_committee_failure(
                summary@,
                checkpoint_sequence_number,
            ) is None,
            Err(error) => next_committee_failure(summary@, checkpoint_sequence_number) == Some(
                error,
            ),
        },
{
    let rights = match summary.next_epoch_committee() {
        Some(rights) => rights,
        None => return Err(WalkError::NotEndOfEpoch { checkpoint: checkpoint_sequence_number }),
    };
    match summary.epoch().checked_add(1) {
        Some(next_epoch) => Ok(Committee::new(next_epoch, rights)),
        None => Err(WalkError::NextEpochOverflow),
    }
}

/// `current` certified a summary that names `next` for the next epoch.
pub open spec fn authenticates(
    current: CommitteeView,
    summary: SummaryView,
    next: CommitteeView,
) -> bool {
    signatures_verdict(current, summary) is Ok && names_next(summary, next)
}

/// Why the summary of the checkpoint `checkpoint` does not authenticate a
/// committee that follows `current`, given whether `current` certified it, if it
/// authenticates none.
pub open spec fn transition_failure_given(
    certified: Result<(), CertificationError>,
    epoch: EpochId,
    summary: SummaryView,
    checkpoint: u64,
) -> Option<WalkError> {
    match certified {
        Err(error) => Some(WalkError::Transition { epoch, checkpoint, error }),
        Ok(()) => next_committee_failure(summary, checkpoint),
    }
}

/// Judges a transition checkpoint that has been checked for certification by the
/// committee of `epoch`.
pub fn judge_transition(
    certified: Result<(), CertificationError>,
    epoch: EpochId,
    certified_summary: &CertifiedCheckpointSummary,
    last_checkpoint: u64,
) -> (next: Result<Committee, WalkError>)
    ensures
        match next {
            Ok(next) => names_next(certified_summary@, next@) && transition_failure_given(
                certified,
                epoch,
                certified_summary@,
                last_checkpoint,
            ) is None,
            Err(error) => transition_failure_given(
                certified,
                epoch,
                certified_summary@,
                last_checkpoint,
            ) == Some(error),
        },
{
    match certified {
        Ok(()) => next_committee_from_end_of_epoch_summary(certified_summary, last_checkpoint),
        Err(error) => Err(WalkError::Transition { epoch, checkpoint: last_checkpoint, error }),
    }
}

/// Why the last checkpoint of the epoch of `current`, as served by a node, does
/// not authenticate a next committee, if it does not.
pub open spec fn transition_failure(
    current: CommitteeView,
    checkpoint: CheckpointResponseView,
    last_checkpoint: u64,
) -> Option<WalkError> {
    match served_summary(checkpoint) {
        Err(error) => Some(WalkError::Response(error)),
        Ok(summary) => transition_failure_given(
            signatures_verdict(current, summary),
            current.epoch,
            summary,
            last_checkpoint,
        ),
    }
}

/// The committee that follows `current_committee`, as authenticated by the
/// checkpoint `last_checkpoint`.
pub fn next_verified_committee(
    current_committee: &Committee,
    checkpoint: &CheckpointResponse,
    last_checkpoint: u64,
) -> (next: Result<Committee, WalkError>)
    ensures
        match next {
            Ok(next) => transition_failure(current_committee@, checkpoint@, last_checkpoint) is None
                && authenticates(current_committee@, served_summary(checkpoint@)->Ok_0, next@),
            Err(error) => transition_failure(current_committee@, checkpoint@, last_checkpoint)
                == Some(error),
        },
{
    let certified_summary = match checkpoint_summary_from_response(checkpoint) {
        Ok(certified_summary) => certified_summary,
        Err(error) => return Err(WalkError::Response(error)),
    };
    judge_transition(
        certified_summary.verify_authority_signatures(current_committee),
        current_committee.epoch(),
        &certified_summary,
        last_checkpoint,
    )
}

/// What a [`CommitteeWalk`] is: the committees passed, the trusted one first, the
/// summaries that led from each to the next, and the epoch sought.
pub struct WalkView {
    pub committees: Seq<CommitteeView>,
    pub summaries: Seq<SummaryView>,
    pub target_epoch: EpochId,
}

/// Each committee certified the summary that names the next one.
pub open spec fn lineage(committees: Seq<CommitteeView>, summaries: Seq<SummaryView>) -> bool {
    &&& committees.len() == summaries.len() + 1
    &&& forall|i: int|
        0 <= i < summaries.len() ==> authenticates(
            committees[i],
            #[trigger] summaries[i],
            committees[i + 1],
        )
}

impl WalkView {
    /// The committees are a lineage, the summaries are as they were encoded, and
    /// the last committee is not past the epoch sought.
    pub open spec fn well_formed(self) -> bool {
        &&& lineage(self.committees, self.summaries)
        &&& forall|i: int|
            0 <= i < self.summaries.len() ==> summary_from_bcs(
                (#[trigger] self.summaries[i]).bcs,
                self.summaries[i].signature,
            ) == Ok::<_, DecodeError>(self.summaries[i])
        &&& self.committees.last().epoch <= self.target_epoch
    }

    /// The committee reached so far.
    pub open spec fn reached(self) -> CommitteeView {
        self.committees.last()
    }
}

/// A walk from a trusted committee to that of a target epoch. The node serves
/// one transition checkpoint per epoch, and each is verified by the committee
/// reached before it.
pub struct CommitteeWalk {
    verified_committee: Committee,
    target_epoch: EpochId,
    committees: Ghost<Seq<CommitteeView>>,
    summaries: Ghost<Seq<SummaryView>>,
}

impl View for CommitteeWalk {
    type V = WalkView;

    closed spec fn view(&self) -> WalkView {
        WalkView {
            committees: self.committees@,
            summaries: self.summaries@,
            target_epoch: self.target_epoch,
        }
    }
}

impl CommitteeWalk {
    #[verifier::type_invariant]
    spec fn inv(self) -> bool {
        self@.well_formed() && self.verified_committee@ == self@.reached()
    }

    /// Starts at a committee the caller trusts.
    pub fn start(
        trusted_committee: Committee,
        target_epoch: EpochId,
        node_current_epoch: EpochId,
    ) -> (walk: Result<CommitteeWalk, WalkError>)
        ensures
            result_view(walk) == match reach_verdict(
                trusted_committee@.epoch,
                target_epoch,
                node_current_epoch,
            ) {
                Ok(()) => Ok(
                    WalkView {
                        committees: seq![trusted_committee@],
                        summaries: Seq::empty(),
                        target_epoch,
                    },
                ),
                Err(error) => Err(error),
            },
    {
        match ensure_target_epoch_is_reachable(
            trusted_committee.epoch(),
            target_epoch,
            node_current_epoch,
        ) {
            Ok(()) => {},
            Err(error) => return Err(error),
        }
        let ghost committees = seq![trusted_committee@];
        Ok(
            CommitteeWalk {
                verified_committee: trusted_committee,
                target_epoch,
                committees: Ghost(committees),
                summaries: Ghost(Seq::empty()),
            },
        )
    }

    /// The epoch whose last checkpoint is needed next, until the target epoch is
    /// reached.
    pub fn pending_epoch(&self) -> (epoch: Option<EpochId>)
        ensures
            epoch == if self@.reached().epoch < self@.target_epoch {
                Some(self@.reached().epoch)
            } else {
                None
            },
    {
        proof {
            use_type_invariant(self);
        }
        if self.verified_committee.epoch() < self.target_epoch {
            Some(self.verified_committee.epoch())
        } else {
            None
        }
    }

    /// Takes one step with the last checkpoint of the pending epoch.
    pub fn advance(self, last_checkpoint: u64, checkpoint: &CheckpointResponse) -> (walk: Result<
        CommitteeWalk,
        WalkError,
    >)
        requires
            self@.reached().epoch < self@.target_epoch,
        ensures
            match walk {
                Ok(walk) => {
                    &&& transition_failure(self@.reached(), checkpoint@, last_checkpoint) is None
                    &&& walk@ == (WalkView {
                        committees: self@.committees.push(walk@.reached()),
                        summaries: self@.summaries.push(served_summary(checkpoint@)->Ok_0),
                        target_epoch: self@.target_epoch,
                    })
                    &&& walk@.well_formed()
                    &&& checkpoint@.summary matches Some(Some(bcs))
                    &&& checkpoint@.signature matches Some(Some(signature))
                    &&& quorum_signed(
                        self@.reached().epoch,
                        self@.reached().members,
                        bcs,
                        signature,
                    )
                    &&& summary_fields(bcs) matches Some(fields)
                    &&& fields.epoch == self@.reached().epoch
                    &&& fields.next_epoch_committee matches Some(rights)
                    &&& walk@.reached().epoch == self@.reached().epoch + 1
                    &&& forall|name: AuthorityName| #[trigger]
                        stake_of(walk@.reached().members, name) == stake_of(rights, name)
                },
                Err(error) => transition_failure(self@.reached(), checkpoint@, last_checkpoint)
                    == Some(error),
            },
    {
        proof {
            use_type_invariant(&self);
        }
        let next = match next_verified_committee(
            &self.verified_committee,
            checkpoint,
            last_checkpoint,
        ) {
            Ok(next) => next,
            Err(error) => return Err(error),
        };
        let ghost committees = self@.committees.push(next@);
        let ghost summaries = self@.summaries.push(served_summary(checkpoint@)->Ok_0);
        proof {
            assert(self@.committees == committees.drop_last());
            assert forall|i: int| 0 <= i < summaries.len() implies authenticates(
                committees[i],
                #[trigger] summaries[i],
                committees[i + 1],
            ) by {
                if i < self@.summaries.len() {
                    assert(summaries[i] == self@.summaries[i]);
                }
            }
            assert forall|i: int| 0 <= i < summaries.len() implies summary_from_bcs(
                (#[trigger] summaries[i]).bcs,
                summaries[i].signature,
            ) == Ok::<_, DecodeError>(summaries[i]) by {
                if i < self@.summaries.len() {
                    assert(summaries[i] == self@.summaries[i]);
                }
            }
        }
        Ok(
            CommitteeWalk {
                verified_committee: next,
                target_epoch: self.target_epoch,
                committees: Ghost(committees),
                summaries: Ghost(summaries),
            },
        )
    }

    /// The committee reached.
    pub fn into_committee(self) -> (committee: Committee)
        ensures
            committee@ == self@.reached(),
            self@.well_formed(),
    {
        proof {
            use_type_invariant(&self);
        }
        self.verified_committee
    }
}

} // verus!
