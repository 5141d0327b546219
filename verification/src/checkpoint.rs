//! Checkpoints: certified summaries and contents.

use vstd::prelude::*;

use crate::bytes::{same_digest, Digest};
use crate::committee::{AuthorityName, Committee, CommitteeView, EpochId, StakeUnit, VotingRights};
use crate::error::{CertificationError, DecodeError};
use crate::sdk;
use crate::sdk::{
    contents_digest_of, contents_transactions_of, quorum_signed, signature_epoch_of,
    summary_digest_of, summary_fields, SummaryFields, SummaryFieldsView,
};
use crate::views::{option_view, result_view};

verus! {

/// An execution: the digests of the transaction and of its effects.
#[derive(Clone, Copy, Debug, PartialEq, Eq)]
pub struct ExecutionDigests {
    pub transaction: Digest,
    pub effects: Digest,
}

impl ExecutionDigests {
    /// Tells whether both digests are the same.
    pub fn same(&self, other: &ExecutionDigests) -> (same: bool)
        ensures
            same == (*self == *other),
    {
        same_digest(&self.transaction, &other.transaction) && same_digest(
            &self.effects,
            &other.effects,
        )
    }
}

/// What a certified summary is: the encodings of the summary and of its
/// signature, and what they say.
pub struct SummaryView {
    pub bcs: Seq<u8>,
    pub signature: Seq<u8>,
    pub digest: Digest,
    pub epoch: EpochId,
    pub sequence_number: u64,
    pub contents_digest: Digest,
    pub next_epoch_committee: Option<VotingRights>,
    pub signature_epoch: EpochId,
}

/// The summary and signature with these encodings, or what fails to decode
/// first.
pub open spec fn summary_from_bcs(bcs: Seq<u8>, signature: Seq<u8>) -> Result<
    SummaryView,
    DecodeError,
> {
    match (summary_fields(bcs), summary_digest_of(bcs), signature_epoch_of(signature)) {
        (None, _, _) => Err(DecodeError::Summary),
        (_, None, _) => Err(DecodeError::Summary),
        (_, _, None) => Err(DecodeError::ValidatorSignature),
        (Some(fields), Some(digest), Some(signature_epoch)) => Ok(
            SummaryView {
                bcs,
                signature,
                digest,
                epoch: fields.epoch,
                sequence_number: fields.sequence_number,
                contents_digest: fields.contents_digest,
                next_epoch_committee: fields.next_epoch_committee,
                signature_epoch,
            },
        ),
    }
}

/// A checkpoint summary with the aggregated signature of the validators that
/// certify it.
#[derive(Debug)]
pub struct CertifiedCheckpointSummary {
    bcs: Vec<u8>,
    signature: Vec<u8>,
    digest: Digest,
    fields: SummaryFields,
    signature_epoch: EpochId,
}

impl View for CertifiedCheckpointSummary {
    type V = SummaryView;

    closed spec fn view(&self) -> SummaryView {
        SummaryView {
            bcs: self.bcs@,
            signature: self.signature@,
            digest: self.digest,
            epoch: self.fields@.epoch,
            sequence_number: self.fields@.sequence_number,
            contents_digest: self.fields@.contents_digest,
            next_epoch_committee: self.fields@.next_epoch_committee,
            signature_epoch: self.signature_epoch,
        }
    }
}

impl CertifiedCheckpointSummary {
    #[verifier::type_invariant]
    spec fn inv(self) -> bool {
        summary_from_bcs(self.bcs@, self.signature@) == Ok::<_, DecodeError>(self@)
    }

    /// Decodes a summary and its signature from the versioned BCS forms of the
    /// gRPC API.
    pub fn from_bcs(bcs: Vec<u8>, signature: Vec<u8>) -> (summary: Result<
        CertifiedCheckpointSummary,
        DecodeError,
    >)
        ensures
            result_view(summary) == summary_from_bcs(bcs@, signature@),
            match summary {
                Ok(summary) => {
                    &&& summary@.bcs == bcs@
                    &&& summary@.signature == signature@
                    &&& summary_digest_of(bcs@) == Some(summary@.digest)
                    &&& summary_fields(bcs@) == Some(
                        SummaryFieldsView {
                            epoch: summary@.epoch,
                            sequence_number: summary@.sequence_number,
                            contents_digest: summary@.contents_digest,
                            next_epoch_committee: summary@.next_epoch_committee,
                        },
                    )
                    &&& signature_epoch_of(signature@) == Some(summary@.signature_epoch)
                },
                Err(error) => if summary_fields(bcs@) is None || summary_digest_of(bcs@) is None {
                    error == DecodeError::Summary
                } else {
                    error == DecodeError::ValidatorSignature && signature_epoch_of(
                        signature@,
                    ) is None
                },
            },
    {
        let (fields, digest) = match (sdk::decode_summary(&bcs), sdk::summary_digest(&bcs)) {
            (Ok(fields), Ok(digest)) => (fields, digest),
            _ => return Err(DecodeError::Summary),
        };
        match sdk::signature_epoch(&signature) {
            Ok(signature_epoch) => Ok(
                CertifiedCheckpointSummary { bcs, signature, digest, fields, signature_epoch },
            ),
            Err(_) => Err(DecodeError::ValidatorSignature),
        }
    }

    /// The encoding of the summary.
    pub fn bcs(&self) -> (bcs: &Vec<u8>)
        ensures
            bcs@ == self@.bcs,
            summary_from_bcs(bcs@, self@.signature) == Ok::<_, DecodeError>(self@),
    {
        proof {
            use_type_invariant(self);
        }
        &self.bcs
    }

    /// The encoding of the signature.
    pub fn signature(&self) -> (signature: &Vec<u8>)
        ensures
            signature@ == self@.signature,
    {
        &self.signature
    }

    /// The digest of the summary, which the signature does not enter.
    pub fn digest(&self) -> (digest: &Digest)
        ensures
            *digest == self@.digest,
            summary_digest_of(self@.bcs) == Some(*digest),
    {
        proof {
            use_type_invariant(self);
        }
        &self.digest
    }

    /// The epoch of the checkpoint.
    pub fn epoch(&self) -> (epoch: EpochId)
        ensures
            epoch == self@.epoch,
            summary_fields(self@.bcs) is Some,
            epoch == summary_fields(self@.bcs)->0.epoch,
    {
        proof {
            use_type_invariant(self);
        }
        self.fields.epoch
    }

    /// The height of the checkpoint.
    pub fn sequence_number(&self) -> (sequence_number: u64)
        ensures
            sequence_number == self@.sequence_number,
            summary_fields(self@.bcs) is Some,
            sequence_number == summary_fields(self@.bcs)->0.sequence_number,
    {
        proof {
            use_type_invariant(self);
        }
        self.fields.sequence_number
    }

    /// The voting rights of the next epoch, which the last checkpoint of an
    /// epoch holds.
    pub fn next_epoch_committee(&self) -> (rights: Option<&Vec<(AuthorityName, StakeUnit)>>)
        ensures
            option_view(rights) == self@.next_epoch_committee,
            summary_fields(self@.bcs) is Some,
            match rights {
                Some(rights) => summary_fields(self@.bcs)->0.next_epoch_committee == Some(rights@),
                None => summary_fields(self@.bcs)->0.next_epoch_committee is None,
            },
    {
        proof {
            use_type_invariant(self);
        }
        self.fields.next_epoch_committee.as_ref()
    }

    /// Verifies that a quorum of `committee` signed this summary.
    pub fn verify_authority_signatures(&self, committee: &Committee) -> (verified: Result<
        (),
        CertificationError,
    >)
        ensures
            verified == signatures_verdict(committee@, self@),
            verified is Ok <==> {
                &&& summary_fields(self@.bcs)->0.epoch == committee@.epoch
                &&& signature_epoch_of(self@.signature) == Some(committee@.epoch)
                &&& quorum_signed(
                    committee@.epoch,
                    committee@.members,
                    self@.bcs,
                    self@.signature,
                )
            },
    {
        proof {
            use_type_invariant(self);
        }
        let signed = sdk::check_quorum_signature(
            committee.epoch(),
            committee.voting_rights(),
            &self.bcs,
            &self.signature,
        ).is_ok();
        judge_signatures(self.fields.epoch, self.signature_epoch, committee.epoch(), signed)
    }

    /// Verifies that a quorum of `committee` signed this summary and, where
    /// `contents` are given, that the summary commits to them.
    pub fn verify_with_contents(
        &self,
        committee: &Committee,
        contents: Option<&CheckpointContents>,
    ) -> (verified: Result<(), CertificationError>)
        ensures
            verified == certification(committee@, self@, option_view(contents)),
            verified is Ok <==> {
                &&& summary_fields(self@.bcs)->0.epoch == committee@.epoch
                &&& signature_epoch_of(self@.signature) == Some(committee@.epoch)
                &&& quorum_signed(
                    committee@.epoch,
                    committee@.members,
                    self@.bcs,
                    self@.signature,
                )
                &&& contents matches Some(contents) ==> contents_digest_of(contents@.bcs) == Some(
                    summary_fields(self@.bcs)->0.contents_digest,
                )
            },
    {
        proof {
            use_type_invariant(self);
        }
        match self.verify_authority_signatures(committee) {
            Ok(()) => {},
            Err(error) => return Err(error),
        }
        match contents {
            Some(contents) => if same_digest(contents.digest(), &self.fields.contents_digest) {
                Ok(())
            } else {
                Err(CertificationError::ContentsDigest)
            },
            None => Ok(()),
        }
    }
}

/// What follows from the epochs of a summary, of its signature and of the
/// committee, and from whether a quorum of the committee `signed`.
pub open spec fn signatures_verdict_given(
    summary_epoch: EpochId,
    signature_epoch: EpochId,
    committee_epoch: EpochId,
    signed: bool,
) -> Result<(), CertificationError> {
    if summary_epoch != signature_epoch {
        Err(
            CertificationError::SummaryEpoch { summary: summary_epoch, signature: signature_epoch },
        )
    } else if signature_epoch != committee_epoch {
        Err(
            CertificationError::CommitteeEpoch {
                committee: committee_epoch,
                signature: signature_epoch,
            },
        )
    } else if !signed {
        Err(CertificationError::Signature)
    } else {
        Ok(())
    }
}

/// Whether `committee` certifies `summary`, and if not, why.
pub open spec fn signatures_verdict(committee: CommitteeView, summary: SummaryView) -> Result<
    (),
    CertificationError,
> {
    signatures_verdict_given(
        summary.epoch,
        summary.signature_epoch,
        committee.epoch,
        quorum_signed(committee.epoch, committee.members, summary.bcs, summary.signature),
    )
}

/// Whether `committee` certifies `summary` and `summary` commits to `contents`,
/// and if not, why.
pub open spec fn certification(
    committee: CommitteeView,
    summary: SummaryView,
    contents: Option<ContentsView>,
) -> Result<(), CertificationError> {
    match (signatures_verdict(committee, summary), contents) {
        (Err(error), _) => Err(error),
        (Ok(()), Some(contents)) => if contents.digest == summary.contents_digest {
            Ok(())
        } else {
            Err(CertificationError::ContentsDigest)
        },
        (Ok(()), None) => Ok(()),
    }
}

/// Judges a signature by its epoch and by whether a quorum of the committee
/// `signed`.
pub fn judge_signatures(
    summary_epoch: EpochId,
    signature_epoch: EpochId,
    committee_epoch: EpochId,
    signed: bool,
) -> (verdict: Result<(), CertificationError>)
    ensures
        verdict == signatures_verdict_given(
            summary_epoch,
            signature_epoch,
            committee_epoch,
            signed,
        ),
{
    if summary_epoch != signature_epoch {
        return Err(
            CertificationError::SummaryEpoch { summary: summary_epoch, signature: signature_epoch },
        );
    }
    if signature_epoch != committee_epoch {
        return Err(
            CertificationError::CommitteeEpoch {
                committee: committee_epoch,
                signature: signature_epoch,
            },
        );
    }
    if !signed {
        return Err(CertificationError::Signature);
    }
    Ok(())
}

/// What checkpoint contents are: their encoding, their digest, and the executed
/// transactions they list.
pub struct ContentsView {
    pub bcs: Seq<u8>,
    pub digest: Digest,
    pub transactions: Seq<ExecutionDigests>,
}

/// The checkpoint contents that `bcs` encodes.
pub open spec fn contents_from_bcs(bcs: Seq<u8>) -> Result<ContentsView, DecodeError> {
    match (contents_digest_of(bcs), contents_transactions_of(bcs)) {
        (Some(digest), Some(transactions)) => Ok(ContentsView { bcs, digest, transactions }),
        _ => Err(DecodeError::Contents),
    }
}

/// The transactions that a checkpoint lists.
#[derive(Debug)]
pub struct CheckpointContents {
    bcs: Vec<u8>,
    digest: Digest,
    transactions: Vec<ExecutionDigests>,
}

impl View for CheckpointContents {
    type V = ContentsView;

    closed spec fn view(&self) -> ContentsView {
        ContentsView {
            bcs: self.bcs@,
            digest: self.digest,
            transactions: self.transactions@,
        }
    }
}

impl CheckpointContents {
    #[verifier::type_invariant]
    spec fn inv(self) -> bool {
        contents_from_bcs(self.bcs@) == Ok::<_, DecodeError>(self@)
    }

    /// Decodes checkpoint contents from BCS.
    pub fn from_bcs(bcs: Vec<u8>) -> (contents: Result<CheckpointContents, DecodeError>)
        ensures
            result_view(contents) == contents_from_bcs(bcs@),
            match contents {
                Ok(contents) => {
                    &&& contents@.bcs == bcs@
                    &&& contents_digest_of(bcs@) == Some(contents@.digest)
                    &&& contents_transactions_of(bcs@) == Some(contents@.transactions)
                },
                Err(error) => {
                    &&& error == DecodeError::Contents
                    &&& contents_digest_of(bcs@) is None || contents_transactions_of(bcs@) is None
                },
            },
    {
        match (sdk::contents_digest(&bcs), sdk::contents_transactions(&bcs)) {
            (Ok(digest), Ok(transactions)) => Ok(CheckpointContents { bcs, digest, transactions }),
            _ => Err(DecodeError::Contents),
        }
    }

    /// The encoding of these contents.
    pub fn bcs(&self) -> (bcs: &Vec<u8>)
        ensures
            bcs@ == self@.bcs,
            contents_from_bcs(bcs@) == Ok::<_, DecodeError>(self@),
    {
        proof {
            use_type_invariant(self);
        }
        &self.bcs
    }

    /// The digest of these contents.
    pub fn digest(&self) -> (digest: &Digest)
        ensures
            *digest == self@.digest,
            contents_digest_of(self@.bcs) == Some(*digest),
    {
        proof {
            use_type_invariant(self);
        }
        &self.digest
    }

    /// Tells whether the checkpoint lists this execution.
    pub fn lists(&self, digests: &ExecutionDigests) -> (listed: bool)
        ensures
            listed == self@.transactions.contains(*digests),
            contents_transactions_of(self@.bcs) is Some,
            listed == contents_transactions_of(self@.bcs)->0.contains(*digests),
    {
        proof {
            use_type_invariant(self);
        }
        let mut i: usize = 0;
        while i < self.transactions.len()
            invariant
                i <= self.transactions@.len(),
                contents_transactions_of(self@.bcs) == Some(self.transactions@),
                forall|j: int| 0 <= j < i ==> self.transactions@[j] != *digests,
            decreases self.transactions@.len() - i,
        {
            if self.transactions[i].same(digests) {
                assert(self.transactions@[i as int] == *digests);
                return true;
            }
            i = i + 1;
        }
        false
    }
}

} // verus!
