//! The per-item approvals ledger: a small map from operator account to the
//! sequence number of the approval it holds. It is kept as a vector of
//! entries with pairwise-distinct keys and is specified through its view,
//! a mathematical map from account name to sequence number.

use vstd::prelude::*;

use crate::AccountId;

verus! {

/// Whether some entry of `s` carries the account spelled `k`.
pub open spec fn has_key(s: Seq<(AccountId, u64)>, k: Seq<char>) -> bool {
    exists|i: int| 0 <= i < s.len() && s[i].0@ == k
}

/// An index of an entry of `s` carrying the account spelled `k`.
pub open spec fn key_at(s: Seq<(AccountId, u64)>, k: Seq<char>) -> int {
    choose|i: int| 0 <= i < s.len() && s[i].0@ == k
}

/// The abstract content of a sequence of approval entries. Under
/// [`distinct_keys`] the chosen entry for each account is the only one.
pub open spec fn approvals_of(s: Seq<(AccountId, u64)>) -> Map<Seq<char>, u64> {
    Map::new(|k: Seq<char>| has_key(s, k), |k: Seq<char>| s[key_at(s, k)].1)
}

/// Pairwise-distinct keys, compared by their character content.
pub open spec fn distinct_keys(s: Seq<(AccountId, u64)>) -> bool {
    forall|i: int, j: int| 0 <= i < j < s.len() ==> s[i].0@ != s[j].0@
}

/// Under distinct keys, each entry of `s` is reflected exactly in the
/// abstract content.
pub proof fn lemma_approvals_of_entry(s: Seq<(AccountId, u64)>, i: int)
    requires
        distinct_keys(s),
        0 <= i < s.len(),
    ensures
        approvals_of(s).contains_key(s[i].0@),
        approvals_of(s)[s[i].0@] == s[i].1,
{
    let k = s[i].0@;
    assert(has_key(s, k));
    let j = key_at(s, k);
    assert(0 <= j < s.len() && s[j].0@ == k);
    if i < j {
        assert(s[i].0@ != s[j].0@);
    } else if j < i {
        assert(s[j].0@ != s[i].0@);
    }
}

/// Map from an operator account to the sequence number of the approval it
/// currently holds on one item.
pub struct ApprovalMap {
    entries: Vec<(AccountId, u64)>,
}

impl View for ApprovalMap {
    type V = Map<Seq<char>, u64>;

    closed spec fn view(&self) -> Map<Seq<char>, u64> {
        approvals_of(self.entries@)
    }
}

impl ApprovalMap {
    /// The representation invariant: no account appears twice.
    pub closed spec fn wf(&self) -> bool {
        distinct_keys(self.entries@)
    }

    /// The empty approvals map.
    pub fn new() -> (r: ApprovalMap)
        ensures
            r.wf(),
            r@ == Map::<Seq<char>, u64>::empty(),
    {
        let r = ApprovalMap { entries: Vec::new() };
        proof {
            assert(r@ =~= Map::<Seq<char>, u64>::empty());
        }
        r
    }

    /// Whether no account holds an approval.
    pub fn is_empty(&self) -> (r: bool)
        requires
            self.wf(),
        ensures
            r == (self@ == Map::<Seq<char>, u64>::empty()),
    {
        proof {
            if self.entries@.len() == 0 {
                assert(self@ =~= Map::<Seq<char>, u64>::empty());
            } else {
                assert(self.entries@[0].0@ == self.entries@[0].0@);
                assert(has_key(self.entries@, self.entries@[0].0@));
                assert(self@.contains_key(self.entries@[0].0@));
            }
        }
        self.entries.len() == 0
    }

    /// The sequence number of the approval `account_id` holds, if any.
    pub fn get(&self, account_id: &AccountId) -> (r: Option<u64>)
        requires
            self.wf(),
        ensures
            match r {
                Some(seq) => self@.contains_key(account_id@) && self@[account_id@] == seq,
                None => !self@.contains_key(account_id@),
            },
    {
        let n = self.entries.len();
        let mut i: usize = 0;
        while i < n
            invariant
                n == self.entries@.len(),
                i <= n,
                forall|j: int| 0 <= j < i ==> self.entries@[j].0@ != account_id@,
                self.wf(),
            decreases n - i,
        {
            if self.entries[i].0 == *account_id {
                proof {
                    lemma_approvals_of_entry(self.entries@, i as int);
                }
                return Some(self.entries[i].1);
            }
            i += 1;
        }
        proof {
            if has_key(self.entries@, account_id@) {
                let j = key_at(self.entries@, account_id@);
                assert(self.entries@[j].0@ != account_id@);
            }
        }
        None
    }

    /// Grants or replaces the approval held by `account_id`, giving it the
    /// sequence number `approval_seq`.
    #[verifier::rlimit(50)]
    pub fn insert(&mut self, account_id: AccountId, approval_seq: u64)
        requires
            old(self).wf(),
        ensures
            final(self).wf(),
            final(self)@ == old(self)@.insert(account_id@, approval_seq),
    {
        let ghost s0 = self.entries@;
        let n = self.entries.len();
        let mut kept: Vec<(AccountId, u64)> = Vec::new();
        let mut i: usize = 0;
        while i < n
            invariant
                n == s0.len(),
                i <= n,
                self.entries@ == s0,
                distinct_keys(s0),
                distinct_keys(kept@),
                forall|j: int|
                    0 <= j < kept@.len() ==> #[trigger] kept@[j].0@ != account_id@ && exists|l: int|
                        0 <= l < i && s0[l].0@ == kept@[j].0@ && s0[l].1 == kept@[j].1,
                forall|l: int|
                    0 <= l < i && #[trigger] s0[l].0@ != account_id@ ==> exists|j: int|
                        0 <= j < kept@.len() && kept@[j].0@ == s0[l].0@ && kept@[j].1 == s0[l].1,
            decreases n - i,
        {
            let ghost kept_before = kept@;
            let same = self.entries[i].0 == account_id;
            if !same {
                let entry = (self.entries[i].0.clone(), self.entries[i].1);
                kept.push(entry);
            }
            proof {
                assert forall|j: int| 0 <= j < kept@.len() implies #[trigger] kept@[j].0@
                    != account_id@ && exists|l: int|
                    0 <= l < i + 1 && s0[l].0@ == kept@[j].0@ && s0[l].1 == kept@[j].1 by {
                    if j < kept_before.len() {
                        assert(kept@[j] == kept_before[j]);
                        let l = choose|l: int|
                            0 <= l < i && s0[l].0@ == kept_before[j].0@ && s0[l].1
                                == kept_before[j].1;
                        assert(0 <= l < i + 1 && s0[l].0@ == kept@[j].0@ && s0[l].1 == kept@[j].1);
                    } else {
                        assert(s0[i as int].0@ == kept@[j].0@ && s0[i as int].1 == kept@[j].1);
                    }
                }
                assert forall|l: int| 0 <= l < i + 1 && #[trigger] s0[l].0@
                    != account_id@ implies exists|j: int|
                    0 <= j < kept@.len() && kept@[j].0@ == s0[l].0@ && kept@[j].1 == s0[l].1 by {
                    if l < i {
                        let j = choose|j: int|
                            0 <= j < kept_before.len() && kept_before[j].0@ == s0[l].0@
                                && kept_before[j].1 == s0[l].1;
                        assert(kept@[j].0@ == s0[l].0@ && kept@[j].1 == s0[l].1);
                    } else {
                        let j = kept@.len() - 1;
                        assert(kept@[j].0@ == s0[l].0@ && kept@[j].1 == s0[l].1);
                    }
                }
            }
            i += 1;
        }
        let ghost kept_body = kept@;
        kept.push((account_id, approval_seq));
        proof {
            assert(kept@.last().0@ == account_id@);
            assert forall|j1: int, j2: int| 0 <= j1 < j2 < kept@.len() implies kept@[j1].0@
                != kept@[j2].0@ by {
                if j2 == kept@.len() - 1 {
                    assert(kept@[j1] == kept_body[j1]);
                } else {
                    assert(kept@[j1] == kept_body[j1] && kept@[j2] == kept_body[j2]);
                }
            }
            let m_new = approvals_of(kept@);
            let m_goal = approvals_of(s0).insert(account_id@, approval_seq);
            assert forall|k: Seq<char>| #[trigger] m_new.dom().contains(k) implies m_goal.dom().contains(
                k,
            ) by {
                if k != account_id@ {
                    let j = key_at(kept@, k);
                    assert(0 <= j < kept@.len() && kept@[j].0@ == k);
                    assert(j < kept@.len() - 1);
                    assert(kept_body[j].0@ == k);
                    let l = choose|l: int|
                        0 <= l < n && s0[l].0@ == kept_body[j].0@ && s0[l].1 == kept_body[j].1;
                    assert(s0[l].0@ == k);
                    assert(has_key(s0, k));
                }
            }
            assert forall|k: Seq<char>| #[trigger] m_goal.dom().contains(k) implies m_new.dom().contains(
                k,
            ) && m_new[k] == m_goal[k] by {
                if k == account_id@ {
                    let j = kept@.len() - 1;
                    assert(kept@[j].0@ == k);
                    lemma_approvals_of_entry(kept@, j);
                } else {
                    let l = key_at(s0, k);
                    assert(0 <= l < s0.len() && s0[l].0@ == k);
                    lemma_approvals_of_entry(s0, l);
                    let j = choose|j: int|
                        0 <= j < kept_body.len() && kept_body[j].0@ == s0[l].0@ && kept_body[j].1
                            == s0[l].1;
                    assert(kept@[j].0@ == k && kept@[j].1 == s0[l].1);
                    lemma_approvals_of_entry(kept@, j);
                }
            }
            assert(m_new =~= m_goal);
        }
        self.entries = kept;
    }

    /// A deep copy: the snapshot of an item's approvals that the transfer
    /// protocol captures before mutating the item.
    pub fn duplicate(&self) -> (r: ApprovalMap)
        requires
            self.wf(),
        ensures
            r.wf(),
            r@ == self@,
    {
        let n = self.entries.len();
        let mut copied: Vec<(AccountId, u64)> = Vec::new();
        let mut i: usize = 0;
        while i < n
            invariant
                n == self.entries@.len(),
                i <= n,
                copied@.len() == i,
                forall|j: int|
                    0 <= j < i ==> copied@[j].0@ == self.entries@[j].0@ && copied@[j].1
                        == self.entries@[j].1,
            decreases n - i,
        {
            let entry = (self.entries[i].0.clone(), self.entries[i].1);
            copied.push(entry);
            i += 1;
        }
        proof {
            let s = self.entries@;
            assert(approvals_of(copied@) =~= approvals_of(s)) by {
                assert forall|k: Seq<char>| has_key(copied@, k) == has_key(s, k) by {
                    if has_key(copied@, k) {
                        let j = choose|j: int| 0 <= j < copied@.len() && copied@[j].0@ == k;
                        assert(s[j].0@ == k);
                    }
                    if has_key(s, k) {
                        let j = choose|j: int| 0 <= j < s.len() && s[j].0@ == k;
                        assert(copied@[j].0@ == k);
                    }
                }
                assert forall|k: Seq<char>| has_key(s, k) implies approvals_of(copied@)[k]
                    == approvals_of(s)[k] by {
                    let l = key_at(s, k);
                    assert(0 <= l < s.len() && s[l].0@ == k);
                    lemma_approvals_of_entry(s, l);
                    assert(copied@[l].0@ == k && copied@[l].1 == s[l].1);
                    assert(distinct_keys(copied@));
                    lemma_approvals_of_entry(copied@, l);
                }
            }
        }
        ApprovalMap { entries: copied }
    }
}

} // verus!
