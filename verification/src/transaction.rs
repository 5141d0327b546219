//! Transactions, their effects and their events.

use vstd::prelude::*;

use crate::bytes::{same_bytes, Digest};
use crate::checkpoint::ExecutionDigests;
use crate::error::DecodeError;
use crate::object::ObjectRef;
use crate::sdk;
use crate::sdk::{
    changed_objects_of, effects_digest_of, effects_fields_of, events_digest_of,
    is_user_signature, transaction_digest_of,
};
use crate::views::{encodings, result_view};

verus! {

/// What a signed transaction is: its encoding, those of its signatures, and its
/// digest.
pub struct TransactionView {
    pub bcs: Seq<u8>,
    pub signatures: Seq<Seq<u8>>,
    pub digest: Digest,
}

/// Each of `signatures` encodes a user signature.
pub open spec fn are_user_signatures(signatures: Seq<Seq<u8>>) -> bool {
    forall|i: int| 0 <= i < signatures.len() ==> is_user_signature(#[trigger] signatures[i])
}

/// The transaction that `bcs` encodes, signed with `signatures`, or what fails
/// to decode first: the transaction, then the signatures.
pub open spec fn transaction_from_bcs(bcs: Seq<u8>, signatures: Seq<Seq<u8>>) -> Result<
    TransactionView,
    DecodeError,
> {
    match transaction_digest_of(bcs) {
        None => Err(DecodeError::Transaction),
        Some(digest) => if are_user_signatures(signatures) {
            Ok(TransactionView { bcs, signatures, digest })
        } else {
            Err(DecodeError::UserSignature)
        },
    }
}

/// A transaction with the user signatures that authorize it.
#[derive(Debug)]
pub struct Transaction {
    bcs: Vec<u8>,
    signatures: Vec<Vec<u8>>,
    digest: Digest,
}

impl View for Transaction {
    type V = TransactionView;

    closed spec fn view(&self) -> TransactionView {
        TransactionView {
            bcs: self.bcs@,
            signatures: encodings(self.signatures@),
            digest: self.digest,
        }
    }
}

impl Transaction {
    #[verifier::type_invariant]
    spec fn inv(self) -> bool {
        transaction_from_bcs(self.bcs@, encodings(self.signatures@)) == Ok::<
            _,
            DecodeError,
        >(self@)
    }

    /// Decodes a transaction from BCS. It has no signatures yet.
    pub fn from_bcs(bcs: Vec<u8>) -> (transaction: Result<Transaction, DecodeError>)
        ensures
            result_view(transaction) == transaction_from_bcs(bcs@, Seq::empty()),
            match transaction {
                Ok(transaction) => {
                    &&& transaction@.bcs == bcs@
                    &&& transaction@.signatures.len() == 0
                    &&& transaction_digest_of(bcs@) == Some(transaction@.digest)
                },
                Err(error) => error == DecodeError::Transaction && transaction_digest_of(
                    bcs@,
                ) is None,
            },
    {
        let signatures: Vec<Vec<u8>> = Vec::new();
        assert(encodings(signatures@) =~= Seq::empty());
        match sdk::transaction_digest(&bcs) {
            Ok(digest) => Ok(Transaction { bcs, signatures, digest }),
            Err(_) => Err(DecodeError::Transaction),
        }
    }

    /// Decodes user signatures from BCS and gives them to this transaction, in
    /// place of those it has.
    pub fn with_signatures(self, signatures: Vec<Vec<u8>>) -> (transaction: Result<
        Transaction,
        DecodeError,
    >)
        ensures
            result_view(transaction) == transaction_from_bcs(self@.bcs, encodings(signatures@)),
            match transaction {
                Ok(transaction) => {
                    &&& transaction@.bcs == self@.bcs
                    &&& transaction@.digest == self@.digest
                    &&& transaction@.signatures.len() == signatures@.len()
                    &&& forall|i: int|
                        0 <= i < signatures@.len() ==> transaction@.signatures[i] == (
                        #[trigger] signatures@[i])@ && is_user_signature(signatures@[i]@)
                },
                Err(error) => error == DecodeError::UserSignature && exists|i: int|
                    0 <= i < signatures@.len() && !is_user_signature((#[trigger] signatures@[i])@),
            },
    {
        proof {
            use_type_invariant(&self);
        }
        let ghost signed = encodings(signatures@);
        let mut i: usize = 0;
        while i < signatures.len()
            invariant
                i <= signatures@.len(),
                signed == encodings(signatures@),
                transaction_digest_of(self@.bcs) is Some,
                forall|j: int| 0 <= j < i ==> is_user_signature(#[trigger] signed[j]),
            decreases signatures@.len() - i,
        {
            assert(signed[i as int] == signatures@[i as int]@);
            if sdk::check_user_signature(&signatures[i]).is_err() {
                return Err(DecodeError::UserSignature);
            }
            i = i + 1;
        }
        Ok(Transaction { bcs: self.bcs, signatures, digest: self.digest })
    }

    /// The encoding of the transaction.
    pub fn bcs(&self) -> (bcs: &Vec<u8>)
        ensures
            bcs@ == self@.bcs,
            transaction_from_bcs(bcs@, self@.signatures) == Ok::<_, DecodeError>(self@),
    {
        proof {
            use_type_invariant(self);
        }
        &self.bcs
    }

    /// The encodings of the signatures.
    pub fn signatures(&self) -> (signatures: &Vec<Vec<u8>>)
        ensures
            encodings(signatures@) == self@.signatures,
            signatures@.len() == self@.signatures.len(),
            forall|i: int|
                0 <= i < signatures@.len() ==> (#[trigger] signatures@[i])@ == self@.signatures[i],
    {
        &self.signatures
    }

    /// The digest of the transaction, which the signatures do not enter.
    pub fn digest(&self) -> (digest: &Digest)
        ensures
            *digest == self@.digest,
            transaction_digest_of(self@.bcs) == Some(*digest),
    {
        proof {
            use_type_invariant(self);
        }
        &self.digest
    }
}

/// What effects are: their encoding, the digests that identify the execution,
/// the digest of the events, and the objects written.
pub struct EffectsView {
    pub bcs: Seq<u8>,
    pub digests: ExecutionDigests,
    pub events_digest: Option<Digest>,
    pub changed_objects: Seq<ObjectRef>,
}

/// The effects that `bcs` encodes.
pub open spec fn effects_from_bcs(bcs: Seq<u8>) -> Result<EffectsView, DecodeError> {
    match (effects_fields_of(bcs), effects_digest_of(bcs), changed_objects_of(bcs)) {
        (Some((transaction, events_digest)), Some(effects), Some(changed_objects)) => Ok(
            EffectsView {
                bcs,
                digests: ExecutionDigests { transaction, effects },
                events_digest,
                changed_objects,
            },
        ),
        _ => Err(DecodeError::Effects),
    }
}

/// The effects of executing a transaction.
#[derive(Debug)]
pub struct TransactionEffects {
    bcs: Vec<u8>,
    digests: ExecutionDigests,
    events_digest: Option<Digest>,
    changed_objects: Vec<ObjectRef>,
}

impl View for TransactionEffects {
    type V = EffectsView;

    closed spec fn view(&self) -> EffectsView {
        EffectsView {
            bcs: self.bcs@,
            digests: self.digests,
            events_digest: self.events_digest,
            changed_objects: self.changed_objects@,
        }
    }
}

impl TransactionEffects {
    #[verifier::type_invariant]
    spec fn inv(self) -> bool {
        effects_from_bcs(self.bcs@) == Ok::<_, DecodeError>(self@)
    }

    /// Decodes effects from BCS.
    pub fn from_bcs(bcs: Vec<u8>) -> (effects: Result<TransactionEffects, DecodeError>)
        ensures
            result_view(effects) == effects_from_bcs(bcs@),
            match effects {
                Ok(effects) => {
                    &&& effects@.bcs == bcs@
                    &&& effects_fields_of(bcs@) == Some(
                        (effects@.digests.transaction, effects@.events_digest),
                    )
                    &&& effects_digest_of(bcs@) == Some(effects@.digests.effects)
                    &&& changed_objects_of(bcs@) == Some(effects@.changed_objects)
                },
                Err(error) => {
                    &&& error == DecodeError::Effects
                    &&& effects_fields_of(bcs@) is None || effects_digest_of(bcs@) is None
                        || changed_objects_of(bcs@) is None
                },
            },
    {
        match (sdk::effects_fields(&bcs), sdk::effects_digest(&bcs), sdk::changed_objects(&bcs)) {
            (Ok((transaction, events_digest)), Ok(effects), Ok(changed_objects)) => Ok(
                TransactionEffects {
                    bcs,
                    digests: ExecutionDigests { transaction, effects },
                    events_digest,
                    changed_objects,
                },
            ),
            _ => Err(DecodeError::Effects),
        }
    }

    /// The encoding of these effects.
    pub fn bcs(&self) -> (bcs: &Vec<u8>)
        ensures
            bcs@ == self@.bcs,
            effects_from_bcs(bcs@) == Ok::<_, DecodeError>(self@),
    {
        proof {
            use_type_invariant(self);
        }
        &self.bcs
    }

    /// The digests of the executed transaction and of these effects.
    pub fn execution_digests(&self) -> (digests: ExecutionDigests)
        ensures
            digests == self@.digests,
            effects_fields_of(self@.bcs) is Some,
            digests.transaction == (effects_fields_of(self@.bcs)->0).0,
            effects_digest_of(self@.bcs) == Some(digests.effects),
    {
        proof {
            use_type_invariant(self);
        }
        self.digests
    }

    /// The digest of the events, where the transaction emitted events.
    pub fn events_digest(&self) -> (digest: &Option<Digest>)
        ensures
            *digest == self@.events_digest,
            effects_fields_of(self@.bcs) is Some,
            *digest == (effects_fields_of(self@.bcs)->0).1,
    {
        proof {
            use_type_invariant(self);
        }
        &self.events_digest
    }

    /// The references of the objects created, mutated or unwrapped.
    pub fn all_changed_objects(&self) -> (objects: &Vec<ObjectRef>)
        ensures
            objects@ == self@.changed_objects,
            changed_objects_of(self@.bcs) == Some(objects@),
    {
        proof {
            use_type_invariant(self);
        }
        &self.changed_objects
    }
}

/// An event, by its versioned BCS form: each event has exactly one.
#[derive(Debug, PartialEq, Eq)]
pub struct Event {
    pub bcs: Vec<u8>,
}

impl View for Event {
    type V = Seq<u8>;

    open spec fn view(&self) -> Seq<u8> {
        self.bcs@
    }
}

impl Event {
    /// Tells whether two events are the same.
    pub fn same(&self, other: &Event) -> (same: bool)
        ensures
            same == (self@ == other@),
            same == (self.bcs@ == other.bcs@),
    {
        same_bytes(self.bcs.as_slice(), other.bcs.as_slice())
    }
}

/// The position of an event: the transaction that emitted it, and its place
/// among the events of that transaction.
#[derive(Clone, Copy, Debug, PartialEq, Eq)]
pub struct EventID {
    pub tx_digest: Digest,
    pub event_seq: u64,
}

/// What the events of a transaction are: their encodings, in order, and the
/// digest of the list.
pub struct EventsView {
    pub events: Seq<Seq<u8>>,
    pub digest: Digest,
}

/// The events with these encodings.
pub open spec fn events_from_bcs(events: Seq<Seq<u8>>) -> Result<EventsView, DecodeError> {
    match events_digest_of(events) {
        Some(digest) => Ok(EventsView { events, digest }),
        None => Err(DecodeError::Events),
    }
}

/// The events emitted by a transaction.
#[derive(Debug)]
pub struct TransactionEvents {
    events: Vec<Event>,
    digest: Digest,
}

impl View for TransactionEvents {
    type V = EventsView;

    closed spec fn view(&self) -> EventsView {
        EventsView { events: encodings(self.events@), digest: self.digest }
    }
}

impl TransactionEvents {
    #[verifier::type_invariant]
    spec fn inv(self) -> bool {
        events_from_bcs(encodings(self.events@)) == Ok::<_, DecodeError>(self@)
    }

    /// Decodes the events of a transaction.
    pub fn from_events(events: Vec<Event>) -> (decoded: Result<TransactionEvents, DecodeError>)
        ensures
            result_view(decoded) == events_from_bcs(encodings(events@)),
            match decoded {
                Ok(decoded) => {
                    &&& decoded@.events.len() == events@.len()
                    &&& forall|i: int|
                        0 <= i < events@.len() ==> decoded@.events[i] == (
                        #[trigger] events@[i]).bcs@
                    &&& events_digest_of(decoded@.events) == Some(decoded@.digest)
                },
                Err(error) => error == DecodeError::Events && events_digest_of(
                    events@.map_values(|event: Event| event.bcs@),
                ) is None,
            },
    {
        assert(encodings(events@) =~= events@.map_values(|event: Event| event.bcs@));
        match sdk::events_digest(&events) {
            Ok(digest) => Ok(TransactionEvents { events, digest }),
            Err(_) => Err(DecodeError::Events),
        }
    }

    /// The events, in order.
    pub fn events(&self) -> (events: &Vec<Event>)
        ensures
            encodings(events@) == self@.events,
            events@.len() == self@.events.len(),
            forall|i: int|
                0 <= i < events@.len() ==> (#[trigger] events@[i]).bcs@ == self@.events[i],
            events_from_bcs(self@.events) == Ok::<_, DecodeError>(self@),
    {
        proof {
            use_type_invariant(self);
        }
        &self.events
    }

    /// The digest of the list of events.
    pub fn digest(&self) -> (digest: &Digest)
        ensures
            *digest == self@.digest,
            events_digest_of(self@.events) == Some(*digest),
    {
        proof {
            use_type_invariant(self);
        }
        &self.digest
    }
}

} // verus!
