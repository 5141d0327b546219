//! What a node serves over gRPC, and the chain data in it.

use vstd::prelude::*;

use crate::bytes::{copy_bytes, same_digest, Digest};
use crate::checkpoint::{
    contents_from_bcs, summary_from_bcs, CertifiedCheckpointSummary, CheckpointContents,
    ContentsView, SummaryView,
};
use crate::committee::{
    name_from_bytes, AuthorityName, Committee, CommitteeView, EpochId, StakeUnit, VotingRights,
};
use crate::error::ResponseError;
use crate::proofs::{
    no_targets, Proof, ProofTargets, ProofView, TransactionProof, TransactionProofView,
};
use crate::transaction::{
    effects_from_bcs, events_from_bcs, transaction_from_bcs, EffectsView, Event, EventsView,
    Transaction, TransactionEffects, TransactionEvents, TransactionView,
};
use crate::views::{encodings, option_view, result_view};

verus! {

/// A message that carries BCS, if the node filled it in.
#[derive(Debug)]
pub struct Message {
    pub bcs: Option<Vec<u8>>,
}

impl View for Message {
    type V = Option<Seq<u8>>;

    open spec fn view(&self) -> Option<Seq<u8>> {
        option_view(self.bcs)
    }
}

/// What is in each message of a list.
pub open spec fn messages_view(messages: Seq<Message>) -> Seq<Option<Seq<u8>>> {
    messages.map_values(|message: Message| message@)
}

/// What the messages of a list carry, if each carries something.
pub open spec fn payloads(messages: Seq<Option<Seq<u8>>>) -> Option<Seq<Seq<u8>>> {
    if forall|i: int| 0 <= i < messages.len() ==> (#[trigger] messages[i]) is Some {
        Some(messages.map_values(|message: Option<Seq<u8>>| message->0))
    } else {
        None
    }
}

/// A checkpoint, as served by a node.
#[derive(Debug)]
pub struct CheckpointResponse {
    pub summary: Option<Message>,
    pub signature: Option<Message>,
    pub contents: Option<Message>,
}

/// What a [`CheckpointResponse`] is.
pub struct CheckpointResponseView {
    pub summary: Option<Option<Seq<u8>>>,
    pub signature: Option<Option<Seq<u8>>>,
    pub contents: Option<Option<Seq<u8>>>,
}

impl View for CheckpointResponse {
    type V = CheckpointResponseView;

    open spec fn view(&self) -> CheckpointResponseView {
        CheckpointResponseView {
            summary: option_view(self.summary),
            signature: option_view(self.signature),
            contents: option_view(self.contents),
        }
    }
}

/// The events of a transaction, as served by a node.
#[derive(Debug)]
pub struct EventsMessage {
    pub events: Option<Vec<Message>>,
}

impl View for EventsMessage {
    type V = Option<Seq<Option<Seq<u8>>>>;

    open spec fn view(&self) -> Option<Seq<Option<Seq<u8>>>> {
        match self.events {
            Some(messages) => Some(messages_view(messages@)),
            None => None,
        }
    }
}

/// An executed transaction, as served by a node.
#[derive(Debug)]
pub struct ExecutedTransaction {
    pub transaction: Option<Message>,
    pub signatures: Option<Vec<Message>>,
    pub effects: Option<Message>,
    pub events: Option<EventsMessage>,
    pub checkpoint: Option<u64>,
}

/// What an [`ExecutedTransaction`] is.
pub struct ExecutedTransactionView {
    pub transaction: Option<Option<Seq<u8>>>,
    pub signatures: Option<Seq<Option<Seq<u8>>>>,
    pub effects: Option<Option<Seq<u8>>>,
    pub events: Option<Option<Seq<Option<Seq<u8>>>>>,
    pub checkpoint: Option<u64>,
}

impl View for ExecutedTransaction {
    type V = ExecutedTransactionView;

    open spec fn view(&self) -> ExecutedTransactionView {
        ExecutedTransactionView {
            transaction: option_view(self.transaction),
            signatures: match self.signatures {
                Some(messages) => Some(messages_view(messages@)),
                None => None,
            },
            effects: option_view(self.effects),
            events: option_view(self.events),
            checkpoint: self.checkpoint,
        }
    }
}

/// A committee member, as served by a node.
#[derive(Debug)]
pub struct MemberMessage {
    pub public_key: Option<Vec<u8>>,
    pub weight: Option<StakeUnit>,
}

impl View for MemberMessage {
    type V = (Option<Seq<u8>>, Option<StakeUnit>);

    open spec fn view(&self) -> (Option<Seq<u8>>, Option<StakeUnit>) {
        (option_view(self.public_key), self.weight)
    }
}

/// A committee, as served by a node.
#[derive(Debug)]
pub struct CommitteeMessage {
    pub epoch: Option<EpochId>,
    pub members: Option<Vec<MemberMessage>>,
}

/// What a [`CommitteeMessage`] is.
pub struct CommitteeMessageView {
    pub epoch: Option<EpochId>,
    pub members: Option<Seq<(Option<Seq<u8>>, Option<StakeUnit>)>>,
}

impl View for CommitteeMessage {
    type V = CommitteeMessageView;

    open spec fn view(&self) -> CommitteeMessageView {
        CommitteeMessageView {
            epoch: self.epoch,
            members: match self.members {
                Some(members) => Some(members@.map_values(|member: MemberMessage| member@)),
                None => None,
            },
        }
    }
}

/// Takes the payload of each message, if each has one.
fn collect_payloads(messages: &Vec<Message>) -> (collected: Option<Vec<Vec<u8>>>)
    ensures
        payloads(messages_view(messages@)) == match collected {
            Some(collected) => Some(encodings(collected@)),
            None => None,
        },
{
    let ghost served = messages_view(messages@);
    let mut collected: Vec<Vec<u8>> = Vec::new();
    let mut i: usize = 0;
    while i < messages.len()
        invariant
            i <= messages@.len(),
            served == messages_view(messages@),
            collected@.len() == i,
            forall|j: int|
                0 <= j < i ==> (#[trigger] served[j]) == Some(collected@[j]@),
        decreases messages@.len() - i,
    {
        assert(served[i as int] == messages@[i as int]@);
        match &messages[i].bcs {
            Some(bcs) => collected.push(copy_bytes(bcs)),
            None => {
                assert(served[i as int] is None);
                return None;
            },
        }
        i = i + 1;
    }
    assert(payloads(served) is Some);
    assert(payloads(served)->0 =~= encodings(collected@));
    Some(collected)
}

/// Takes the event out of each message, if each carries one.
fn collect_events(messages: &Vec<Message>) -> (collected: Option<Vec<Event>>)
    ensures
        payloads(messages_view(messages@)) == match collected {
            Some(collected) => Some(encodings(collected@)),
            None => None,
        },
{
    let events = match collect_payloads(messages) {
        Some(events) => events,
        None => return None,
    };
    let mut collected: Vec<Event> = Vec::new();
    let mut i: usize = 0;
    while i < events.len()
        invariant
            i <= events@.len(),
            collected@.len() == i,
            forall|j: int| 0 <= j < i ==> (#[trigger] collected@[j])@ == events@[j]@,
        decreases events@.len() - i,
    {
        collected.push(Event { bcs: copy_bytes(&events[i]) });
        i = i + 1;
    }
    assert(encodings(collected@) =~= encodings(events@));
    Some(collected)
}

/// The signed summary in a checkpoint response.
pub open spec fn served_summary(response: CheckpointResponseView) -> Result<
    SummaryView,
    ResponseError,
> {
    match (response.summary, response.signature) {
        (Some(Some(bcs)), Some(Some(signature))) => match summary_from_bcs(bcs, signature) {
            Ok(summary) => Ok(summary),
            Err(_) => Err(ResponseError::NoSignedSummary),
        },
        _ => Err(ResponseError::NoSignedSummary),
    }
}

/// Takes the signed summary out of a checkpoint response.
pub fn checkpoint_summary_from_response(checkpoint: &CheckpointResponse) -> (summary: Result<
    CertifiedCheckpointSummary,
    ResponseError,
>)
    ensures
        result_view(summary) == served_summary(checkpoint@),
        match summary {
            Ok(summary) => {
                &&& checkpoint@.summary == Some(Some(summary@.bcs))
                &&& checkpoint@.signature == Some(Some(summary@.signature))
            },
            Err(error) => error == ResponseError::NoSignedSummary,
        },
{
    match (&checkpoint.summary, &checkpoint.signature) {
        (Some(summary), Some(signature)) => match (&summary.bcs, &signature.bcs) {
            (Some(summary), Some(signature)) => {
                match CertifiedCheckpointSummary::from_bcs(
                    copy_bytes(summary),
                    copy_bytes(signature),
                ) {
                    Ok(summary) => Ok(summary),
                    Err(_) => Err(ResponseError::NoSignedSummary),
                }
            },
            _ => Err(ResponseError::NoSignedSummary),
        },
        _ => Err(ResponseError::NoSignedSummary),
    }
}

/// The contents in a checkpoint response.
pub open spec fn served_contents(response: CheckpointResponseView) -> Result<
    ContentsView,
    ResponseError,
> {
    match response.contents {
        None => Err(ResponseError::NoContents),
        Some(None) => Err(ResponseError::Contents),
        Some(Some(bcs)) => match contents_from_bcs(bcs) {
            Ok(contents) => Ok(contents),
            Err(_) => Err(ResponseError::Contents),
        },
    }
}

/// Takes the contents out of a checkpoint response.
pub fn checkpoint_contents_from_response(checkpoint: &CheckpointResponse) -> (contents: Result<
    CheckpointContents,
    ResponseError,
>)
    ensures
        result_view(contents) == served_contents(checkpoint@),
        contents matches Ok(contents) ==> checkpoint@.contents == Some(Some(contents@.bcs)),
{
    let message = match &checkpoint.contents {
        Some(message) => message,
        None => return Err(ResponseError::NoContents),
    };
    match &message.bcs {
        Some(bcs) => match CheckpointContents::from_bcs(copy_bytes(bcs)) {
            Ok(contents) => Ok(contents),
            Err(_) => Err(ResponseError::Contents),
        },
        None => Err(ResponseError::Contents),
    }
}

/// The signed transaction in a transaction response.
pub open spec fn served_transaction(response: ExecutedTransactionView) -> Result<
    TransactionView,
    ResponseError,
> {
    match response.transaction {
        None => Err(ResponseError::NoTransactionData),
        Some(None) => Err(ResponseError::TransactionData),
        Some(Some(bcs)) => match (transaction_from_bcs(bcs, Seq::empty()), response.signatures) {
            (Err(_), _) => Err(ResponseError::TransactionData),
            (Ok(_), None) => Err(ResponseError::NoSignatures),
            (Ok(_), Some(messages)) => match payloads(messages) {
                None => Err(ResponseError::Signatures),
                Some(signatures) => match transaction_from_bcs(bcs, signatures) {
                    Ok(transaction) => Ok(transaction),
                    Err(_) => Err(ResponseError::Signatures),
                },
            },
        },
    }
}

/// Takes the signed transaction out of a transaction response.
pub fn transaction_from_response(transaction: &ExecutedTransaction) -> (signed: Result<
    Transaction,
    ResponseError,
>)
    ensures
        result_view(signed) == served_transaction(transaction@),
        signed matches Ok(signed) ==> {
            &&& transaction@.transaction == Some(Some(signed@.bcs))
            &&& transaction@.signatures is Some
            &&& signed@.signatures.len() == transaction@.signatures->0.len()
            &&& forall|i: int|
                0 <= i < signed@.signatures.len() ==> (#[trigger] transaction@.signatures->0[i])
                    == Some(signed@.signatures[i])
        },
{
    let message = match &transaction.transaction {
        Some(message) => message,
        None => return Err(ResponseError::NoTransactionData),
    };
    let bcs = match &message.bcs {
        Some(bcs) => bcs,
        None => return Err(ResponseError::TransactionData),
    };
    let unsigned = match Transaction::from_bcs(copy_bytes(bcs)) {
        Ok(unsigned) => unsigned,
        Err(_) => return Err(ResponseError::TransactionData),
    };
    let messages = match &transaction.signatures {
        Some(messages) => messages,
        None => return Err(ResponseError::NoSignatures),
    };
    let signatures = match collect_payloads(messages) {
        Some(signatures) => signatures,
        None => return Err(ResponseError::Signatures),
    };
    match unsigned.with_signatures(signatures) {
        Ok(signed) => Ok(signed),
        Err(_) => Err(ResponseError::Signatures),
    }
}

/// The effects in a transaction response.
pub open spec fn served_effects(response: ExecutedTransactionView) -> Result<
    EffectsView,
    ResponseError,
> {
    match response.effects {
        None => Err(ResponseError::NoEffects),
        Some(None) => Err(ResponseError::Effects),
        Some(Some(bcs)) => match effects_from_bcs(bcs) {
            Ok(effects) => Ok(effects),
            Err(_) => Err(ResponseError::Effects),
        },
    }
}

/// Takes the effects out of a transaction response.
pub fn effects_from_response(transaction: &ExecutedTransaction) -> (effects: Result<
    TransactionEffects,
    ResponseError,
>)
    ensures
        result_view(effects) == served_effects(transaction@),
        effects matches Ok(effects) ==> transaction@.effects == Some(Some(effects@.bcs)),
{
    let message = match &transaction.effects {
        Some(message) => message,
        None => return Err(ResponseError::NoEffects),
    };
    match &message.bcs {
        Some(bcs) => match TransactionEffects::from_bcs(copy_bytes(bcs)) {
            Ok(effects) => Ok(effects),
            Err(_) => Err(ResponseError::Effects),
        },
        None => Err(ResponseError::Effects),
    }
}

/// The events in a transaction response, which are wanted only where the effects
/// refer to events.
pub open spec fn served_events(
    response: ExecutedTransactionView,
    events_digest: Option<Digest>,
) -> Result<Option<EventsView>, ResponseError> {
    match (events_digest, response.events) {
        (None, _) => Ok(None),
        (Some(_), None) => Err(ResponseError::NoEvents),
        (Some(_), Some(None)) => Err(ResponseError::Events),
        (Some(_), Some(Some(messages))) => match payloads(messages) {
            None => Err(ResponseError::Events),
            Some(events) => match events_from_bcs(events) {
                Ok(events) => Ok(Some(events)),
                Err(_) => Err(ResponseError::Events),
            },
        },
    }
}

/// Takes the events out of a transaction response, where the effects refer to
/// events.
pub fn events_from_response_if_present(
    transaction: &ExecutedTransaction,
    effects: &TransactionEffects,
) -> (events: Result<Option<TransactionEvents>, ResponseError>)
    ensures
        served_events(transaction@, effects@.events_digest) == match events {
            Ok(events) => Ok(option_view(events)),
            Err(error) => Err(error),
        },
        events matches Ok(events) ==> {
            &&& events is Some <==> effects@.events_digest is Some
            &&& events matches Some(events) ==> {
                &&& transaction@.events is Some
                &&& transaction@.events->0 is Some
                &&& events@.events.len() == transaction@.events->0->0.len()
                &&& forall|i: int|
                    0 <= i < events@.events.len() ==> (#[trigger] transaction@.events->0->0[i])
                        == Some(events@.events[i])
            }
        },
{
    if effects.events_digest().is_none() {
        return Ok(None);
    }
    let message = match &transaction.events {
        Some(message) => message,
        None => return Err(ResponseError::NoEvents),
    };
    let messages = match &message.events {
        Some(messages) => messages,
        None => return Err(ResponseError::Events),
    };
    let events = match collect_events(messages) {
        Some(events) => events,
        None => return Err(ResponseError::Events),
    };
    match TransactionEvents::from_events(events) {
        Ok(events) => Ok(Some(events)),
        Err(_) => Err(ResponseError::Events),
    }
}

/// The first transaction in the reply to a request for the transaction with this
/// digest.
pub fn executed_transaction_from_response(
    transaction_digest: &Digest,
    transactions: Vec<ExecutedTransaction>,
) -> (transaction: Result<ExecutedTransaction, ResponseError>)
    ensures
        match transaction {
            Ok(transaction) => transactions@.len() > 0 && transaction == transactions@[0],
            Err(error) => transactions@.len() == 0 && error == (ResponseError::NoTransaction {
                digest: *transaction_digest,
            }),
        },
{
    if transactions.len() == 0 {
        return Err(ResponseError::NoTransaction { digest: *transaction_digest });
    }
    let mut transactions = transactions;
    Ok(transactions.remove(0))
}

/// The checkpoint that lists a transaction, according to the transaction
/// response.
pub fn checkpoint_sequence_from_response(
    transaction_digest: &Digest,
    transaction: &ExecutedTransaction,
) -> (sequence_number: Result<u64, ResponseError>)
    ensures
        sequence_number == match transaction@.checkpoint {
            Some(sequence_number) => Ok(sequence_number),
            None => Err(ResponseError::NoCheckpointSequence { digest: *transaction_digest }),
        },
{
    match transaction.checkpoint {
        Some(sequence_number) => Ok(sequence_number),
        None => Err(ResponseError::NoCheckpointSequence { digest: *transaction_digest }),
    }
}

/// The proof that the checkpoint lists the transaction that was asked for, made
/// of what the node serves, or what is wrong first: effects, events, summary,
/// contents or transaction, or that another transaction was served.
pub open spec fn served_proof(
    asked: Digest,
    transaction: ExecutedTransactionView,
    checkpoint: CheckpointResponseView,
) -> Result<ProofView, ResponseError> {
    match served_effects(transaction) {
        Err(error) => Err(error),
        Ok(effects) => match (
            served_events(transaction, effects.events_digest),
            served_summary(checkpoint),
            served_contents(checkpoint),
            served_transaction(transaction),
        ) {
            (Err(error), _, _, _) => Err(error),
            (_, Err(error), _, _) => Err(error),
            (_, _, Err(error), _) => Err(error),
            (_, _, _, Err(error)) => Err(error),
            (Ok(events), Ok(checkpoint_summary), Ok(checkpoint_contents), Ok(transaction)) => {
                if transaction.digest != asked {
                    Err(ResponseError::OtherTransaction { asked, served: transaction.digest })
                } else {
                    Ok(
                        ProofView {
                            targets: no_targets(),
                            checkpoint_summary,
                            contents_proof: Some(
                                TransactionProofView {
                                    checkpoint_contents,
                                    transaction,
                                    effects,
                                    events,
                                },
                            ),
                        },
                    )
                }
            },
        },
    }
}

/// Builds a portable proof of the transaction with this digest from what the node
/// serves of it and of the checkpoint that lists it.
pub fn transaction_proof_from_responses(
    transaction_digest: &Digest,
    executed_transaction: &ExecutedTransaction,
    checkpoint: &CheckpointResponse,
) -> (built: Result<Proof, ResponseError>)
    ensures
        result_view(built) == served_proof(
            *transaction_digest,
            executed_transaction@,
            checkpoint@,
        ),
{
    let effects = match effects_from_response(executed_transaction) {
        Ok(effects) => effects,
        Err(error) => return Err(error),
    };
    let events = match events_from_response_if_present(executed_transaction, &effects) {
        Ok(events) => events,
        Err(error) => return Err(error),
    };
    let checkpoint_summary = match checkpoint_summary_from_response(checkpoint) {
        Ok(checkpoint_summary) => checkpoint_summary,
        Err(error) => return Err(error),
    };
    let checkpoint_contents = match checkpoint_contents_from_response(checkpoint) {
        Ok(checkpoint_contents) => checkpoint_contents,
        Err(error) => return Err(error),
    };
    let transaction = match transaction_from_response(executed_transaction) {
        Ok(transaction) => transaction,
        Err(error) => return Err(error),
    };
    if !same_digest(transaction.digest(), transaction_digest) {
        return Err(
            ResponseError::OtherTransaction {
                asked: *transaction_digest,
                served: *transaction.digest(),
            },
        );
    }
    Ok(
        Proof {
            targets: ProofTargets::new(),
            checkpoint_summary,
            contents_proof: Some(
                TransactionProof { checkpoint_contents, transaction, effects, events },
            ),
        },
    )
}

/// The node's current epoch, according to the service info response.
pub fn current_epoch_from_response(epoch: Option<EpochId>) -> (current: Result<
    EpochId,
    ResponseError,
>)
    ensures
        current == match epoch {
            Some(epoch) => Ok(epoch),
            None => Err(ResponseError::NoCurrentEpoch),
        },
{
    match epoch {
        Some(epoch) => Ok(epoch),
        None => Err(ResponseError::NoCurrentEpoch),
    }
}

/// The last checkpoint of `epoch`, according to the epoch response.
pub fn last_checkpoint_from_response(epoch: EpochId, last_checkpoint: Option<u64>) -> (last: Result<
    u64,
    ResponseError,
>)
    ensures
        last == match last_checkpoint {
            Some(last_checkpoint) => Ok(last_checkpoint),
            None => Err(ResponseError::NoLastCheckpoint { epoch }),
        },
{
    match last_checkpoint {
        Some(last_checkpoint) => Ok(last_checkpoint),
        None => Err(ResponseError::NoLastCheckpoint { epoch }),
    }
}

/// `members` lists exactly these voting rights.
pub open spec fn lists_rights(
    members: Seq<(Option<Seq<u8>>, Option<StakeUnit>)>,
    rights: VotingRights,
) -> bool {
    &&& members.len() == rights.len()
    &&& forall|i: int|
        0 <= i < members.len() ==> (#[trigger] members[i]) == (
            Some(rights[i].0@),
            Some(rights[i].1),
        )
}

/// `message` holds the committee of `epoch` with these voting rights.
pub open spec fn holds_committee(
    message: CommitteeMessageView,
    epoch: EpochId,
    rights: VotingRights,
) -> bool {
    &&& message.epoch == Some(epoch)
    &&& message.members matches Some(members) && lists_rights(members, rights)
}

/// The response holds voting rights of an epoch, and `committee` is the committee
/// they make.
pub open spec fn is_served_committee(
    response: Option<CommitteeMessageView>,
    committee: CommitteeView,
) -> bool {
    exists|rights: VotingRights|
        response is Some && #[trigger] holds_committee(response->0, committee.epoch, rights)
            && committee.is_committee_of(committee.epoch, rights)
}

/// Takes the committee out of the response for `epoch`. A committee is there
/// where its epoch is and each member has a stake and a public key of the right
/// length.
pub fn committee_from_response(
    epoch: EpochId,
    committee: &Option<CommitteeMessage>,
) -> (taken: Result<Committee, ResponseError>)
    ensures
        match taken {
            Ok(taken) => is_served_committee(option_view(*committee), taken@),
            Err(error) => error == (ResponseError::NoCommittee { epoch }) && (committee is None
                || forall|epoch: EpochId, rights: VotingRights|
                !#[trigger] holds_committee(committee->0@, epoch, rights)),
        },
{
    let message = match committee {
        Some(message) => message,
        None => return Err(ResponseError::NoCommittee { epoch }),
    };
    let (committee_epoch, members) = match (&message.epoch, &message.members) {
        (Some(committee_epoch), Some(members)) => (*committee_epoch, members),
        _ => return Err(ResponseError::NoCommittee { epoch }),
    };
    let ghost served = message@.members->0;
    let mut rights: Vec<(AuthorityName, StakeUnit)> = Vec::new();
    let mut i: usize = 0;
    while i < members.len()
        invariant
            i <= members@.len(),
            committee is Some,
            message@ == committee->0@,
            message@.epoch == Some(committee_epoch),
            message@.members == Some(served),
            served == members@.map_values(|member: MemberMessage| member@),
            rights@.len() == i,
            forall|j: int|
                0 <= j < i ==> (#[trigger] served[j]) == (Some(rights@[j].0@), Some(rights@[j].1)),
        decreases members@.len() - i,
    {
        let member = &members[i];
        assert(served[i as int] == member@);
        let name = match &member.public_key {
            Some(public_key) => name_from_bytes(public_key),
            None => None,
        };
        match (name, member.weight) {
            (Some(name), Some(weight)) => rights.push((name, weight)),
            _ => {
                proof {
                    assert forall|epoch: EpochId, rights: VotingRights|
                        !#[trigger] holds_committee(committee->0@, epoch, rights) by {
                        if holds_committee(committee->0@, epoch, rights) {
                            assert(served[i as int] == (
                                Some(rights[i as int].0@),
                                Some(rights[i as int].1),
                            ));
                        }
                    }
                }
                return Err(ResponseError::NoCommittee { epoch });
            },
        }
        i = i + 1;
    }
    let taken = Committee::new(committee_epoch, &rights);
    assert(holds_committee(option_view(*committee)->0, taken@.epoch, rights@));
    assert(is_served_committee(option_view(*committee), taken@));
    Ok(taken)
}

} // verus!
