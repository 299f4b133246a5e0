//! The reward-record ledger: per-auditor counters of successful and
//! unsuccessful audits, and the metadata of every reward handed out.
//!
//! Only the owner mints.  Rewards are numbered sequentially; the auditors'
//! records are a small association table keyed by the auditor's identity.

use vstd::prelude::*;

use crate::types::{AccountId, Balance};

verus! {

/// Metadata of one minted reward.
#[derive(Debug)]
pub struct RewardInfo {
    /// Recipient's address.
    pub recipient: AccountId,
    /// Audit this reward corresponds to.
    pub audit_id: u32,
    /// Percentage of the total time in which the report was completed.
    pub completion_time: u8,
    /// Number of deadline extensions taken.
    pub extensions: u8,
    /// Final value amount.
    pub amount: Balance,
    /// Reference hash of the submitted audit report.
    pub ipfs_hash: String,
}

/// An auditor's record: how many audits they completed successfully and how
/// many they did not.
#[derive(Clone, Copy, Debug)]
pub struct Stats {
    pub successful_audits: u32,
    pub unsuccessful_audits: u32,
}

/// Errors of the reward ledger.
#[derive(Clone, Copy, Debug)]
pub enum Error {
    UnAuthorisedCall,
}

/// The auditor's record stored under `k`, if any.
pub open spec fn stats_of(s: Seq<(AccountId, Stats)>, k: AccountId) -> Option<Stats>
    decreases s.len(),
{
    if s.len() == 0 {
        None
    } else if s.last().0 == k {
        Some(s.last().1)
    } else {
        stats_of(s.drop_last(), k)
    }
}

/// Whether the association table holds each identity at most once.
pub open spec fn unique_keys(s: Seq<(AccountId, Stats)>) -> bool {
    forall|i: int, j: int| 0 <= i < j < s.len() ==> (#[trigger] s[i]).0 != (#[trigger] s[j]).0
}

proof fn lemma_stats_of_at(s: Seq<(AccountId, Stats)>, i: int)
    requires
        unique_keys(s),
        0 <= i < s.len(),
    ensures
        stats_of(s, s[i].0) == Some(s[i].1),
    decreases s.len(),
{
    if i < s.len() - 1 {
        lemma_stats_of_at(s.drop_last(), i);
    }
}

proof fn lemma_stats_of_absent(s: Seq<(AccountId, Stats)>, k: AccountId)
    requires
        forall|j: int| 0 <= j < s.len() ==> (#[trigger] s[j]).0 != k,
    ensures
        stats_of(s, k) is None,
    decreases s.len(),
{
    if s.len() > 0 {
        lemma_stats_of_absent(s.drop_last(), k);
    }
}

proof fn lemma_stats_of_update(s: Seq<(AccountId, Stats)>, i: int, st: Stats, k: AccountId)
    requires
        unique_keys(s),
        0 <= i < s.len(),
    ensures
        stats_of(s.update(i, (s[i].0, st)), k) == (if k == s[i].0 {
            Some(st)
        } else {
            stats_of(s, k)
        }),
    decreases s.len(),
{
    let t = s.update(i, (s[i].0, st));
    if i == s.len() - 1 {
        assert(t.drop_last() =~= s.drop_last());
    } else {
        assert(t.drop_last() =~= s.drop_last().update(i, (s[i].0, st)));
        lemma_stats_of_update(s.drop_last(), i, st, k);
    }
}

/// The reward-record ledger.
pub struct Rewardtoken {
    pub current_id: u32,
    pub balances: Vec<(AccountId, Stats)>,
    pub owner: AccountId,
    pub rewarded_tokens: Vec<RewardInfo>,
}

impl Rewardtoken {
    /// Well-formedness: reward ids run in step with the arena, and each
    /// auditor has at most one record.
    pub open spec fn wf(self) -> bool {
        &&& self.current_id as int == self.rewarded_tokens@.len()
        &&& unique_keys(self.balances@)
    }

    /// The record stored for an auditor, if any.
    pub open spec fn record_of(self, auditor: AccountId) -> Option<Stats> {
        stats_of(self.balances@, auditor)
    }

    /// Creates an empty reward ledger owned by `_owner`.
    pub fn new(_owner: AccountId) -> (t: Rewardtoken)
        ensures
            t.wf(),
            t.current_id == 0,
            t.owner == _owner,
            t.balances@ == Seq::<(AccountId, Stats)>::empty(),
            t.rewarded_tokens@ == Seq::<RewardInfo>::empty(),
    {
        Rewardtoken {
            current_id: 0,
            owner: _owner,
            balances: Vec::new(),
            rewarded_tokens: Vec::new(),
        }
    }

    /// Mints a reward token: bumps the recipient's successful or
    /// unsuccessful counter (`positive_or_not`) and stores the reward's
    /// metadata under the next reward id.  Only the owner may call; anyone
    /// else is turned away and nothing changes.
    pub fn mint(
        &mut self,
        _recipient: AccountId,
        _audit_id: u32,
        _completion_time: u8,
        _extensions: u8,
        _amount: Balance,
        _ipfs_hash: String,
        positive_or_not: bool,
        caller: AccountId,
    ) -> (r: Result<(), Error>)
        requires
            old(self).wf(),
            old(self).current_id < u32::MAX,
            caller == old(self).owner ==> ({
                match old(self).record_of(_recipient) {
                    Some(st) => (if positive_or_not {
                        st.successful_audits
                    } else {
                        st.unsuccessful_audits
                    }) < u32::MAX,
                    None => true,
                }
            }),
        ensures
            final(self).wf(),
            caller != old(self).owner ==> r == Err::<(), Error>(Error::UnAuthorisedCall) && *final(self)
                == *old(self),
            caller == old(self).owner ==> ({
                let pre = (match old(self).record_of(_recipient) {
                    Some(st) => st,
                    None => Stats { successful_audits: 0, unsuccessful_audits: 0 },
                });
                let post = (if positive_or_not {
                    Stats { successful_audits: (pre.successful_audits + 1) as u32, ..pre }
                } else {
                    Stats { unsuccessful_audits: (pre.unsuccessful_audits + 1) as u32, ..pre }
                });
                &&& r is Ok
                &&& final(self).record_of(_recipient) == Some(post)
                &&& forall|k: AccountId|
                    k != _recipient ==> #[trigger] final(self).record_of(k) == old(self).record_of(
                        k,
                    )
                &&& final(self).rewarded_tokens@ == old(self).rewarded_tokens@.push(
                    (RewardInfo {
                        recipient: _recipient,
                        audit_id: _audit_id,
                        completion_time: _completion_time,
                        extensions: _extensions,
                        amount: _amount,
                        ipfs_hash: _ipfs_hash,
                    }),
                )
                &&& final(self).current_id == old(self).current_id + 1
                &&& final(self).owner == old(self).owner
            }),
    {
        if self.owner != caller {
            return Err(Error::UnAuthorisedCall);
        }
        let pos = self.find_balance(_recipient);
        if pos < self.balances.len() {
            let key = self.balances[pos].0;
            let st = self.balances[pos].1;
            proof {
                lemma_stats_of_at(old(self).balances@, pos as int);
            }
            let updated = if positive_or_not {
                Stats { successful_audits: st.successful_audits + 1, ..st }
            } else {
                Stats { unsuccessful_audits: st.unsuccessful_audits + 1, ..st }
            };
            self.balances[pos] = (key, updated);
            proof {
                lemma_stats_of_at(old(self).balances@, pos as int);
                assert forall|k: AccountId| true implies #[trigger] stats_of(self.balances@, k)
                    == (if k == _recipient {
                    Some(updated)
                } else {
                    stats_of(old(self).balances@, k)
                }) by {
                    lemma_stats_of_update(old(self).balances@, pos as int, updated, k);
                }
            }
        } else {
            let fresh = if positive_or_not {
                Stats { successful_audits: 1, unsuccessful_audits: 0 }
            } else {
                Stats { successful_audits: 0, unsuccessful_audits: 1 }
            };
            self.balances.push((_recipient, fresh));
            proof {
                lemma_stats_of_absent(old(self).balances@, _recipient);
                assert(self.balances@.drop_last() =~= old(self).balances@);
                assert forall|k: AccountId|
                    k != _recipient implies #[trigger] stats_of(self.balances@, k) == stats_of(
                    old(self).balances@,
                    k,
                ) by {
                    assert(self.balances@.last().0 != k);
                }
            }
        }
        let reward_info = RewardInfo {
            recipient: _recipient,
            audit_id: _audit_id,
            completion_time: _completion_time,
            extensions: _extensions,
            amount: _amount,
            ipfs_hash: _ipfs_hash,
        };
        self.rewarded_tokens.push(reward_info);
        self.current_id = self.current_id + 1;
        Ok(())
    }

    /// Position of an auditor in the balance table, or its length when the
    /// auditor has no record.
    fn find_balance(&self, who: AccountId) -> (pos: usize)
        ensures
            pos <= self.balances@.len(),
            pos < self.balances@.len() ==> self.balances@[pos as int].0 == who,
            pos == self.balances@.len() ==> forall|j: int|
                0 <= j < self.balances@.len() ==> (#[trigger] self.balances@[j]).0 != who,
    {
        let mut i: usize = 0;
        while i < self.balances.len()
            invariant
                i <= self.balances@.len(),
                forall|j: int| 0 <= j < i ==> (#[trigger] self.balances@[j]).0 != who,
            decreases self.balances@.len() - i,
        {
            if self.balances[i].0 == who {
                return i;
            }
            i = i + 1;
        }
        i
    }

    /// How many successful and unsuccessful audits the auditor has
    /// completed, if they were ever rewarded.
    pub fn show_auditors_record(&self, auditor: AccountId) -> (r: Option<Stats>)
        requires
            self.wf(),
        ensures
            r == self.record_of(auditor),
    {
        let pos = self.find_balance(auditor);
        if pos < self.balances.len() {
            proof {
                lemma_stats_of_at(self.balances@, pos as int);
            }
            Some(self.balances[pos].1)
        } else {
            proof {
                lemma_stats_of_absent(self.balances@, auditor);
            }
            None
        }
    }

    /// The metadata stored under a reward id, if one was minted under it.
    pub fn show_reward_details(&self, reward_id: u32) -> (r: Option<RewardInfo>)
        ensures
            reward_id < self.rewarded_tokens@.len() ==> r == Some(
                self.rewarded_tokens@[reward_id as int],
            ),
            reward_id >= self.rewarded_tokens@.len() ==> r is None,
    {
        if (reward_id as usize) < self.rewarded_tokens.len() {
            let x = &self.rewarded_tokens[reward_id as usize];
            Some(RewardInfo {
                recipient: x.recipient,
                audit_id: x.audit_id,
                completion_time: x.completion_time,
                extensions: x.extensions,
                amount: x.amount,
                ipfs_hash: x.ipfs_hash.clone(),
            })
        } else {
            None
        }
    }
}

} // verus!
