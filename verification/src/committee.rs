//! Validator committees.

use vstd::prelude::*;

use crate::bytes::same_bytes;

verus! {

/// The number of an epoch.
pub type EpochId = u64;

/// Voting power of a validator.
pub type StakeUnit = u64;

/// A validator, named by the bytes of its BLS12-381 public key.
pub type AuthorityName = [u8; 96];

/// Voting rights, each validator with its stake.
pub type VotingRights = Seq<(AuthorityName, StakeUnit)>;

/// The first byte in which `a` and `b` differ is byte `k`, and it is smaller in
/// `a`.
pub open spec fn smaller_at(a: AuthorityName, b: AuthorityName, k: int) -> bool {
    &&& 0 <= k < 96
    &&& a[k] < b[k]
    &&& forall|j: int| 0 <= j < k ==> a[j] == b[j]
}

/// `a` comes before `b` in the lexicographic order of their bytes.
pub open spec fn precedes(a: AuthorityName, b: AuthorityName) -> bool {
    exists|k: int| smaller_at(a, b, k)
}

/// The names ascend strictly, so no validator is listed twice.
pub open spec fn ascending(rights: VotingRights) -> bool {
    forall|i: int, j: int|
        0 <= i < j < rights.len() ==> precedes(#[trigger] rights[i].0, #[trigger] rights[j].0)
}

/// The stake that `rights` gives to `name`; where a name is listed more than
/// once, its last entry counts.
pub open spec fn stake_of(rights: VotingRights, name: AuthorityName) -> Option<StakeUnit>
    decreases rights.len(),
{
    if rights.len() == 0 {
        None
    } else if rights.last().0 == name {
        Some(rights.last().1)
    } else {
        stake_of(rights.drop_last(), name)
    }
}

/// Both lists give every validator the same stake.
pub open spec fn same_rights(a: VotingRights, b: VotingRights) -> bool {
    forall|name: AuthorityName| #[trigger] stake_of(a, name) == stake_of(b, name)
}

/// The sum of all stakes.
pub open spec fn total_stake(rights: VotingRights) -> nat
    decreases rights.len(),
{
    if rights.len() == 0 {
        0
    } else {
        total_stake(rights.drop_last()) + rights.last().1 as nat
    }
}

/// What a committee is: its epoch, and its members in ascending order.
pub struct CommitteeView {
    pub epoch: EpochId,
    pub members: VotingRights,
}

impl CommitteeView {
    /// The members are listed in the one order that a committee keeps.
    pub open spec fn well_formed(self) -> bool {
        ascending(self.members)
    }

    /// This is the committee of `epoch` in which each validator has the stake
    /// that `rights` gives it.
    pub open spec fn is_committee_of(self, epoch: EpochId, rights: VotingRights) -> bool {
        &&& self.well_formed()
        &&& self.epoch == epoch
        &&& same_rights(self.members, rights)
    }
}

/// The validators of one epoch with their voting rights, ordered by name.
#[derive(Debug, PartialEq, Eq)]
pub struct Committee {
    epoch: EpochId,
    voting_rights: Vec<(AuthorityName, StakeUnit)>,
}

impl View for Committee {
    type V = CommitteeView;

    closed spec fn view(&self) -> CommitteeView {
        CommitteeView { epoch: self.epoch, members: self.voting_rights@ }
    }
}

impl Committee {
    #[verifier::type_invariant]
    spec fn inv(self) -> bool {
        self@.well_formed()
    }

    /// Creates the committee of `epoch`. Where a validator is listed more than
    /// once, its last entry counts.
    pub fn new(epoch: EpochId, rights: &Vec<(AuthorityName, StakeUnit)>) -> (committee: Committee)
        ensures
            committee@.is_committee_of(epoch, rights@),
            committee@.epoch == epoch,
            forall|name: AuthorityName| #[trigger]
                stake_of(committee@.members, name) == stake_of(rights@, name),
            forall|i: int, j: int|
                0 <= i < j < committee@.members.len() ==> precedes(
                    #[trigger] committee@.members[i].0,
                    #[trigger] committee@.members[j].0,
                ),
    {
        let mut voting_rights: Vec<(AuthorityName, StakeUnit)> = Vec::new();
        let mut i: usize = 0;
        while i < rights.len()
            invariant
                i <= rights@.len(),
                ascending(voting_rights@),
                same_rights(voting_rights@, rights@.take(i as int)),
            decreases rights@.len() - i,
        {
            let (name, stake) = rights[i];
            let ghost before = voting_rights@;
            set_right(&mut voting_rights, name, stake);
            proof {
                let prefix = rights@.take(i + 1);
                assert(prefix.drop_last() =~= rights@.take(i as int));
                assert(prefix.last() == (name, stake));
                assert forall|n: AuthorityName| #[trigger]
                    stake_of(voting_rights@, n) == stake_of(prefix, n) by {
                    assert(stake_of(before, n) == stake_of(rights@.take(i as int), n));
                }
            }
            i = i + 1;
        }
        proof {
            assert(rights@.take(i as int) =~= rights@);
        }
        Committee { epoch, voting_rights }
    }

    /// Tells whether two committees have the same epoch and members.
    pub fn same(&self, other: &Committee) -> (same: bool)
        ensures
            same == (self@ == other@),
            self@.well_formed(),
            other@.well_formed(),
    {
        proof {
            use_type_invariant(self);
            use_type_invariant(other);
        }
        if self.epoch != other.epoch || self.voting_rights.len() != other.voting_rights.len() {
            return false;
        }
        let mut i: usize = 0;
        while i < self.voting_rights.len()
            invariant
                i <= self.voting_rights@.len(),
                self@.well_formed(),
                other@.well_formed(),
                self.epoch == other.epoch,
                self.voting_rights@.len() == other.voting_rights@.len(),
                forall|j: int| 0 <= j < i ==> self.voting_rights@[j] == other.voting_rights@[j],
            decreases self.voting_rights@.len() - i,
        {
            let ours = self.voting_rights[i];
            let theirs = other.voting_rights[i];
            if !same_name(&ours.0, &theirs.0) || ours.1 != theirs.1 {
                return false;
            }
            i = i + 1;
        }
        assert(self.voting_rights@ =~= other.voting_rights@);
        true
    }

    /// The combined stake of all members.
    pub fn total_votes(&self) -> (total: u128)
        ensures
            total == total_stake(self@.members),
    {
        let mut total: u128 = 0;
        let mut i: usize = 0;
        while i < self.voting_rights.len()
            invariant
                i <= self.voting_rights@.len(),
                total == total_stake(self.voting_rights@.take(i as int)),
                total <= i * u64::MAX,
            decreases self.voting_rights@.len() - i,
        {
            proof {
                let prefix = self.voting_rights@.take(i + 1);
                assert(prefix.drop_last() =~= self.voting_rights@.take(i as int));
                assert(i * u64::MAX + u64::MAX <= u128::MAX) by (nonlinear_arith)
                    requires
                        i <= u64::MAX,
                ;
                assert((i + 1) * u64::MAX == i * u64::MAX + u64::MAX) by (nonlinear_arith);
            }
            total = total + self.voting_rights[i].1 as u128;
            i = i + 1;
        }
        assert(self.voting_rights@.take(i as int) =~= self.voting_rights@);
        total
    }

    /// The epoch of this committee.
    pub fn epoch(&self) -> (epoch: EpochId)
        ensures
            epoch == self@.epoch,
    {
        self.epoch
    }

    /// The members with their stakes, ordered by name.
    pub fn voting_rights(&self) -> (rights: &Vec<(AuthorityName, StakeUnit)>)
        ensures
            rights@ == self@.members,
            ascending(rights@),
    {
        proof {
            use_type_invariant(self);
        }
        &self.voting_rights
    }
}

impl Clone for Committee {
    fn clone(&self) -> (copy: Committee)
        ensures
            copy@ == self@,
    {
        proof {
            use_type_invariant(self);
        }
        let mut voting_rights: Vec<(AuthorityName, StakeUnit)> = Vec::new();
        let mut i: usize = 0;
        while i < self.voting_rights.len()
            invariant
                i <= self.voting_rights@.len(),
                voting_rights@ == self.voting_rights@.take(i as int),
            decreases self.voting_rights@.len() - i,
        {
            voting_rights.push(self.voting_rights[i]);
            i = i + 1;
        }
        assert(self.voting_rights@.take(i as int) =~= self.voting_rights@);
        Committee { epoch: self.epoch, voting_rights }
    }
}

/// Reads a validator's name.
pub fn name_from_bytes(bytes: &Vec<u8>) -> (name: Option<AuthorityName>)
    ensures
        match name {
            Some(name) => name@ == bytes@,
            None => bytes@.len() != 96,
        },
{
    if bytes.len() != 96 {
        return None;
    }
    let mut name: AuthorityName = [0u8; 96];
    let mut i: usize = 0;
    while i < 96
        invariant
            i <= 96,
            bytes@.len() == 96,
            forall|j: int| 0 <= j < i ==> name@[j] == bytes@[j],
        decreases 96 - i,
    {
        name[i] = bytes[i];
        i = i + 1;
    }
    assert(name@ =~= bytes@);
    Some(name)
}

/// Tells whether `a` comes before `b`.
fn name_precedes(a: &AuthorityName, b: &AuthorityName) -> (before: bool)
    ensures
        before == precedes(*a, *b),
{
    let mut i: usize = 0;
    while i < 96
        invariant
            i <= 96,
            forall|j: int| 0 <= j < i ==> a[j] == b[j],
        decreases 96 - i,
    {
        if a[i] != b[i] {
            proof {
                assert(smaller_at(*a, *b, i as int) == (a[i as int] < b[i as int]));
                assert forall|k: int| smaller_at(*a, *b, k) implies k == i by {
                    if i < k {
                        assert(a[i as int] == b[i as int]);
                    }
                }
            }
            return a[i] < b[i];
        }
        i = i + 1;
    }
    false
}

/// Tells whether two names are the same.
fn same_name(a: &AuthorityName, b: &AuthorityName) -> (same: bool)
    ensures
        same == (*a == *b),
{
    let same = same_bytes(a.as_slice(), b.as_slice());
    proof {
        if same {
            assert forall|i: int| 0 <= i < 96 implies a[i] == b[i] by {
                assert(a@[i] == b@[i]);
            }
            assert(*a =~= *b);
        }
    }
    same
}

/// Two names are the same or one comes before the other.
proof fn lemma_order_is_total(a: AuthorityName, b: AuthorityName)
    ensures
        a == b || precedes(a, b) || precedes(b, a),
{
    if a != b {
        lemma_differ_somewhere(a, b, 0);
    }
}

/// Names that agree before byte `k` and are not the same are ordered.
proof fn lemma_differ_somewhere(a: AuthorityName, b: AuthorityName, k: int)
    requires
        0 <= k <= 96,
        a != b,
        forall|j: int| 0 <= j < k ==> a[j] == b[j],
    ensures
        precedes(a, b) || precedes(b, a),
    decreases 96 - k,
{
    if k == 96 {
        assert(a =~= b);
    } else if a[k] == b[k] {
        lemma_differ_somewhere(a, b, k + 1);
    } else if a[k] < b[k] {
        assert(smaller_at(a, b, k));
    } else {
        assert(smaller_at(b, a, k));
    }
}

/// No name comes before itself, and no two names come before each other.
proof fn lemma_order_is_strict(a: AuthorityName, b: AuthorityName)
    requires
        precedes(a, b),
    ensures
        a != b,
        !precedes(b, a),
{
    let k = choose|k: int| smaller_at(a, b, k);
    if precedes(b, a) {
        let m = choose|m: int| smaller_at(b, a, m);
        if k < m {
            assert(b[k] == a[k]);
        } else if m < k {
            assert(a[m] == b[m]);
        }
    }
}

/// The order is transitive.
proof fn lemma_order_is_transitive(a: AuthorityName, b: AuthorityName, c: AuthorityName)
    requires
        precedes(a, b),
        precedes(b, c),
    ensures
        precedes(a, c),
{
    let k = choose|k: int| smaller_at(a, b, k);
    let m = choose|m: int| smaller_at(b, c, m);
    if k <= m {
        assert(smaller_at(a, c, k));
    } else {
        assert(smaller_at(a, c, m));
    }
}

/// In an ascending list a validator has exactly the stake it is listed with.
proof fn lemma_listed(rights: VotingRights, name: AuthorityName, stake: StakeUnit)
    requires
        ascending(rights),
    ensures
        stake_of(rights, name) == Some(stake) <==> rights.contains((name, stake)),
    decreases rights.len(),
{
    if rights.len() > 0 {
        let front = rights.drop_last();
        lemma_listed(front, name, stake);
        if rights.last().0 == name {
            if rights.contains((name, stake)) {
                let i = choose|i: int| 0 <= i < rights.len() && rights[i] == (name, stake);
                if i < rights.len() - 1 {
                    lemma_order_is_strict(rights[i].0, rights[rights.len() - 1].0);
                }
            }
            assert(rights[rights.len() - 1] == rights.last());
        } else {
            if front.contains((name, stake)) {
                let i = choose|i: int| 0 <= i < front.len() && front[i] == (name, stake);
                assert(rights[i] == (name, stake));
            }
            if rights.contains((name, stake)) {
                let i = choose|i: int| 0 <= i < rights.len() && rights[i] == (name, stake);
                assert(front[i] == (name, stake));
            }
        }
    }
}

/// Where two ascending lists hold the same entries except for `name`, which the
/// second lists with `stake`, they differ in the stake of `name` alone.
proof fn lemma_one_entry_set(
    before: VotingRights,
    after: VotingRights,
    name: AuthorityName,
    stake: StakeUnit,
)
    requires
        ascending(before),
        ascending(after),
        after.contains((name, stake)),
        forall|n: AuthorityName, s: StakeUnit|
            n != name ==> #[trigger] before.contains((n, s)) == after.contains((n, s)),
    ensures
        forall|n: AuthorityName| #[trigger]
            stake_of(after, n) == if n == name {
                Some(stake)
            } else {
                stake_of(before, n)
            },
{
    assert forall|n: AuthorityName| #[trigger]
        stake_of(after, n) == if n == name {
            Some(stake)
        } else {
            stake_of(before, n)
        } by {
        if n == name {
            lemma_listed(after, n, stake);
        } else {
            if stake_of(before, n) is Some {
                lemma_listed(before, n, stake_of(before, n)->0);
                lemma_listed(after, n, stake_of(before, n)->0);
            }
            if stake_of(after, n) is Some {
                lemma_listed(before, n, stake_of(after, n)->0);
                lemma_listed(after, n, stake_of(after, n)->0);
            }
        }
    }
}

/// Replacing the stake at `p` sets the stake of the name at `p`.
proof fn lemma_replaced(before: VotingRights, p: int, stake: StakeUnit, after: VotingRights)
    requires
        ascending(before),
        0 <= p < before.len(),
        after == before.update(p, (before[p].0, stake)),
    ensures
        ascending(after),
        forall|n: AuthorityName| #[trigger]
            stake_of(after, n) == if n == before[p].0 {
                Some(stake)
            } else {
                stake_of(before, n)
            },
{
    let name = before[p].0;
    assert forall|i: int, j: int| 0 <= i < j < after.len() implies precedes(
        #[trigger] after[i].0,
        #[trigger] after[j].0,
    ) by {
        assert(precedes(before[i].0, before[j].0));
    }
    assert(after[p] == (name, stake));
    assert forall|n: AuthorityName, s: StakeUnit| n != name implies #[trigger] before.contains(
        (n, s),
    ) == after.contains((n, s)) by {
        if before.contains((n, s)) {
            let i = choose|i: int| 0 <= i < before.len() && before[i] == (n, s);
            assert(after[i] == (n, s));
        }
        if after.contains((n, s)) {
            let i = choose|i: int| 0 <= i < after.len() && after[i] == (n, s);
            assert(before[i] == (n, s));
        }
    }
    lemma_one_entry_set(before, after, name, stake);
}

/// Inserting a name between those before it and those after it sets its stake.
proof fn lemma_inserted(
    before: VotingRights,
    p: int,
    name: AuthorityName,
    stake: StakeUnit,
    after: VotingRights,
)
    requires
        ascending(before),
        0 <= p <= before.len(),
        forall|i: int| 0 <= i < p ==> precedes(#[trigger] before[i].0, name),
        p < before.len() ==> precedes(name, before[p].0),
        after == before.insert(p, (name, stake)),
    ensures
        ascending(after),
        forall|n: AuthorityName| #[trigger]
            stake_of(after, n) == if n == name {
                Some(stake)
            } else {
                stake_of(before, n)
            },
{
    assert forall|i: int| p <= i < before.len() implies precedes(name, #[trigger] before[i].0) by {
        if p < i {
            assert(precedes(before[p].0, before[i].0));
            lemma_order_is_transitive(name, before[p].0, before[i].0);
        }
    }
    assert forall|i: int, j: int| 0 <= i < j < after.len() implies precedes(
        #[trigger] after[i].0,
        #[trigger] after[j].0,
    ) by {
        let from_i = if i < p { i } else { i - 1 };
        let from_j = if j < p { j } else { j - 1 };
        if i == p {
            assert(precedes(name, before[from_j].0));
        } else if j == p {
            assert(precedes(before[from_i].0, name));
        } else {
            assert(precedes(before[from_i].0, before[from_j].0));
        }
    }
    assert(after[p] == (name, stake));
    assert forall|n: AuthorityName, s: StakeUnit| n != name implies #[trigger] before.contains(
        (n, s),
    ) == after.contains((n, s)) by {
        if before.contains((n, s)) {
            let i = choose|i: int| 0 <= i < before.len() && before[i] == (n, s);
            let j = if i < p { i } else { i + 1 };
            assert(after[j] == (n, s));
        }
        if after.contains((n, s)) {
            let j = choose|j: int| 0 <= j < after.len() && after[j] == (n, s);
            let i = if j < p { j } else { j - 1 };
            assert(before[i] == (n, s));
        }
    }
    lemma_one_entry_set(before, after, name, stake);
}

/// Ascending lists that give every validator the same stake are the same list.
pub proof fn law_rights_determine_members(a: VotingRights, b: VotingRights)
    requires
        ascending(a),
        ascending(b),
        same_rights(a, b),
    ensures
        a == b,
    decreases a.len(),
{
    lemma_no_longer(a, b);
    lemma_no_longer(b, a);
    if a.len() > 0 && b.len() > 0 {
        let x = a.last();
        let y = b.last();
        lemma_last_listed(a, b);
        lemma_last_listed(b, a);
        if x.0 != y.0 {
            lemma_order_is_strict(x.0, y.0);
        }
        assert(stake_of(a, x.0) == stake_of(b, x.0));
        let a_front = a.drop_last();
        let b_front = b.drop_last();
        assert forall|n: AuthorityName| #[trigger]
            stake_of(a_front, n) == stake_of(b_front, n) by {
            assert(stake_of(a, n) == stake_of(b, n));
            if n == x.0 {
                lemma_front_lacks_last(a);
                lemma_front_lacks_last(b);
            }
        }
        law_rights_determine_members(a_front, b_front);
        assert(a =~= a_front.push(x));
        assert(b =~= b_front.push(y));
    }
}

/// Voting rights make one committee of an epoch, in whatever order they are
/// listed.
pub proof fn law_one_committee(
    a: CommitteeView,
    b: CommitteeView,
    epoch: EpochId,
    rights: VotingRights,
)
    requires
        a.is_committee_of(epoch, rights),
        b.is_committee_of(epoch, rights),
    ensures
        a == b,
{
    assert forall|name: AuthorityName| #[trigger]
        stake_of(a.members, name) == stake_of(b.members, name) by {
        assert(stake_of(b.members, name) == stake_of(rights, name));
    }
    law_rights_determine_members(a.members, b.members);
}

/// Where `a` is empty, a list with the same rights is empty too.
proof fn lemma_no_longer(a: VotingRights, b: VotingRights)
    requires
        same_rights(a, b),
    ensures
        a.len() == 0 ==> b.len() == 0,
{
    if b.len() > 0 {
        assert(stake_of(a, b.last().0) == stake_of(b, b.last().0));
    } else {
        assert(a.len() == 0 ==> b =~= a);
    }
}

/// The last name of `a` comes no later than the last name of `b`.
proof fn lemma_last_listed(a: VotingRights, b: VotingRights)
    requires
        ascending(b),
        same_rights(a, b),
        a.len() > 0,
        b.len() > 0,
    ensures
        a.last().0 == b.last().0 || precedes(a.last().0, b.last().0),
{
    let x = a.last();
    assert(stake_of(a, x.0) == stake_of(b, x.0));
    lemma_listed(b, x.0, x.1);
    let i = choose|i: int| 0 <= i < b.len() && b[i] == x;
    if i < b.len() - 1 {
        assert(precedes(b[i].0, b[b.len() - 1].0));
    }
}

/// The last name of an ascending list is listed nowhere else.
proof fn lemma_front_lacks_last(rights: VotingRights)
    requires
        ascending(rights),
        rights.len() > 0,
    ensures
        stake_of(rights.drop_last(), rights.last().0) is None,
{
    let front = rights.drop_last();
    let name = rights.last().0;
    if stake_of(front, name) is Some {
        let stake = stake_of(front, name)->0;
        lemma_listed(front, name, stake);
        let i = choose|i: int| 0 <= i < front.len() && front[i] == (name, stake);
        lemma_order_is_strict(rights[i].0, rights[rights.len() - 1].0);
    }
}

/// Gives `name` the stake `stake` in an ascending list.
fn set_right(
    rights: &mut Vec<(AuthorityName, StakeUnit)>,
    name: AuthorityName,
    stake: StakeUnit,
)
    requires
        ascending(old(rights)@),
    ensures
        ascending(final(rights)@),
        forall|n: AuthorityName| #[trigger]
            stake_of(final(rights)@, n) == if n == name {
                Some(stake)
            } else {
                stake_of(old(rights)@, n)
            },
{
    let mut p: usize = 0;
    while p < rights.len() && name_precedes(&rights[p].0, &name)
        invariant
            p <= rights@.len(),
            rights@ == old(rights)@,
            forall|i: int| 0 <= i < p ==> precedes(#[trigger] rights@[i].0, name),
        decreases rights@.len() - p,
    {
        p = p + 1;
    }
    proof {
        if p < rights@.len() {
            lemma_order_is_total(rights@[p as int].0, name);
        }
    }
    if p < rights.len() && same_name(&rights[p].0, &name) {
        rights[p] = (name, stake);
        proof {
            lemma_replaced(old(rights)@, p as int, stake, rights@);
        }
    } else {
        rights.insert(p, (name, stake));
        proof {
            lemma_inserted(old(rights)@, p as int, name, stake, rights@);
        }
    }
}

} // verus!
