//! The arbitration voting coordinator.
//!
//! A poll is opened by the admin for one disputed audit, with a fixed roster
//! of arbiters.  Each arbiter votes once; a non-final vote accumulates the
//! outcome's deadline-extension and haircut deltas, the final vote averages
//! the accumulated sums over the vote count and finalizes the dispute with a
//! single privileged call into the escrow ledger (a rejection finalizes
//! immediately).  The admin can force that finalization once the override
//! time has passed.  A poll becomes inactive exactly once; no operation
//! touches an inactive poll again.
//!
//! The functions that perform the nested ledger call stand beside variants
//! that take the call's outcome as an argument; the latter carry the whole
//! decision logic and are what the former commit through.

use vstd::prelude::*;

use crate::escrow;
use crate::escrow::Escrow;
use crate::types::{AccountId, Balance, Timestamp};

verus! {

/// One roster member of a poll and whether they have voted.
#[derive(Clone, Copy, Debug)]
pub struct Arbiter {
    pub voter_address: AccountId,
    pub has_voted: bool,
}

/// One arbitration poll: the disputed audit, the fixed roster, the one-shot
/// active flag, the vote count, the two running accumulators and the time
/// from which the admin may force the result.
#[derive(Debug)]
pub struct VoteInfo {
    pub audit_id: u32,
    pub arbiters: Vec<Arbiter>,
    pub is_active: bool,
    pub available_votes: u8,
    pub decided_deadline: Timestamp,
    pub decided_haircut: Balance,
    pub admin_hit_time: Timestamp,
}

/// An arbiter's verdict on the disputed audit.
#[derive(Clone, Copy, Debug)]
pub enum AuditArbitrationResult {
    NoDiscrepancies,
    MinorDiscrepancies,
    ModerateDiscrepancies,
    Reject,
}

/// Errors of the voting coordinator.
#[derive(Clone, Copy, Debug)]
pub enum Error {
    UnAuthorisedCall,
    AssessmentFailed,
    ResultAlreadyPublished,
    VotingFailed,
    RightsNotActivatedYet,
    TransferFailed,
    TreasuryEmpty,
    ValueTooLow,
    ValueTooHigh,
}

/// Event: a poll was opened.
#[derive(Debug)]
pub struct PollCreated {
    pub id: u32,
    pub vote_info: VoteInfo,
}

/// Event: an arbiter cast a vote.
#[derive(Clone, Copy, Debug)]
pub struct ArbiterVoted {
    pub id: u32,
    pub voter: AccountId,
    pub vote_type: Option<AuditArbitrationResult>,
}

/// Event: treasury funds went to the admin because nobody voted.
#[derive(Clone, Copy, Debug)]
pub struct NoOneVotedTransferredToAdmin {
    pub id: u32,
    pub amount: Balance,
}

/// Event: a poll was finalized, by its last voter or by the admin.
#[derive(Clone, Copy, Debug)]
pub struct FinalVotePushed {
    pub id: u32,
    pub pusher: AccountId,
}

/// One entry of the coordinator's event log.
#[derive(Debug)]
pub enum VotingEvent {
    PollCreated(PollCreated),
    ArbiterVoted(ArbiterVoted),
    NoOneVotedTransferredToAdmin(NoOneVotedTransferredToAdmin),
    FinalVotePushed(FinalVotePushed),
}

/// Number of roster members that have voted.
pub open spec fn count_voted(s: Seq<Arbiter>) -> int
    decreases s.len(),
{
    if s.len() == 0 {
        0
    } else {
        count_voted(s.drop_last()) + (if s.last().has_voted {
            1int
        } else {
            0int
        })
    }
}

proof fn lemma_count_voted_le_len(s: Seq<Arbiter>)
    ensures
        0 <= count_voted(s) <= s.len(),
    decreases s.len(),
{
    if s.len() > 0 {
        lemma_count_voted_le_len(s.drop_last());
    }
}

proof fn lemma_count_voted_none(s: Seq<Arbiter>)
    requires
        forall|i: int| 0 <= i < s.len() ==> !(#[trigger] s[i]).has_voted,
    ensures
        count_voted(s) == 0,
    decreases s.len(),
{
    if s.len() > 0 {
        lemma_count_voted_none(s.drop_last());
    }
}

proof fn lemma_voted_shares_len(s: Seq<Arbiter>, per: Balance)
    ensures
        voted_shares(s, per).len() == count_voted(s),
    decreases s.len(),
{
    if s.len() > 0 {
        lemma_voted_shares_len(s.drop_last(), per);
    }
}

proof fn lemma_count_voted_unvoted(s: Seq<Arbiter>, i: int)
    requires
        0 <= i < s.len(),
        !s[i].has_voted,
    ensures
        count_voted(s) <= s.len() - 1,
    decreases s.len(),
{
    if i == s.len() - 1 {
        lemma_count_voted_le_len(s.drop_last());
    } else {
        lemma_count_voted_unvoted(s.drop_last(), i);
    }
}

proof fn lemma_count_voted_update(s: Seq<Arbiter>, i: int, a: Arbiter)
    requires
        0 <= i < s.len(),
    ensures
        count_voted(s.update(i, a)) == count_voted(s) - (if s[i].has_voted {
            1int
        } else {
            0int
        }) + (if a.has_voted {
            1int
        } else {
            0int
        }),
    decreases s.len(),
{
    let t = s.update(i, a);
    if i == s.len() - 1 {
        assert(t.drop_last() =~= s.drop_last());
    } else {
        assert(t.drop_last() =~= s.drop_last().update(i, a));
        lemma_count_voted_update(s.drop_last(), i, a);
    }
}

/// Whether `caller` appears in the roster.
pub open spec fn in_roster(s: Seq<Arbiter>, caller: AccountId) -> bool {
    exists|j: int| 0 <= j < s.len() && (#[trigger] s[j]).voter_address == caller
}

/// Whether `idx` is the first roster position of `caller`: the position the
/// coordinator marks when `caller` votes.
pub open spec fn first_voter_index(s: Seq<Arbiter>, caller: AccountId, idx: int) -> bool {
    &&& 0 <= idx < s.len()
    &&& s[idx].voter_address == caller
    &&& forall|j: int| 0 <= j < idx ==> (#[trigger] s[j]).voter_address != caller
}

/// Whether `caller` can still cast a counted vote on the poll: it is
/// active and the caller holds an unused roster position.
pub open spec fn may_accumulate(p: VoteInfo, caller: AccountId) -> bool {
    &&& p.is_active
    &&& exists|idx: int|
        #[trigger] first_voter_index(p.arbiters@, caller, idx) && !p.arbiters@[idx].has_voted
}

/// Well-formedness of one poll: the roster fits the vote counter's type,
/// the vote counter equals the number of marked roster members (a poll
/// starts with an unmarked roster, and exactly the members that voted are
/// marked), the haircut accumulator stays within 90 per vote, and an
/// untouched poll has empty accumulators.
pub open spec fn poll_wf(p: VoteInfo) -> bool {
    &&& p.arbiters@.len() <= 255
    &&& p.available_votes as int == count_voted(p.arbiters@)
    &&& p.decided_haircut as int <= 90 * (p.available_votes as int)
    &&& p.available_votes == 0 ==> p.decided_deadline == 0 && p.decided_haircut == 0
}

/// Whether this vote finalizes the poll: a rejection always does, and so
/// does the vote that completes the roster.
pub open spec fn vote_finalizes(p: VoteInfo, result: AuditArbitrationResult) -> bool {
    result is Reject || p.available_votes as int + 1 == p.arbiters@.len()
}

/// The deadline-extension accumulator after `caller`'s vote: a non-final
/// vote adds the outcome's configured extension, the final vote also
/// averages the sum over the final vote count (a rejection, and a final
/// clean verdict over an empty sum, leave it alone).
pub open spec fn decided_deadline_after(
    v: Voting,
    p: VoteInfo,
    result: AuditArbitrationResult,
) -> int {
    let fin = p.available_votes as int + 1 == p.arbiters@.len();
    let av1 = p.available_votes as int + 1;
    match result {
        AuditArbitrationResult::NoDiscrepancies => if fin && p.decided_deadline > 0 {
            p.decided_deadline as int / av1
        } else {
            p.decided_deadline as int
        },
        AuditArbitrationResult::MinorDiscrepancies => if fin {
            (p.decided_deadline as int + v.time_extension_for_minor_discrepancies as int) / av1
        } else {
            p.decided_deadline as int + v.time_extension_for_minor_discrepancies as int
        },
        AuditArbitrationResult::ModerateDiscrepancies => if fin {
            (p.decided_deadline as int + v.time_extension_for_moderate_discrepancies as int) / av1
        } else {
            p.decided_deadline as int + v.time_extension_for_moderate_discrepancies as int
        },
        AuditArbitrationResult::Reject => p.decided_deadline as int,
    }
}

/// The haircut accumulator after `caller`'s vote, mirroring
/// [`decided_deadline_after`].
pub open spec fn decided_haircut_after(
    v: Voting,
    p: VoteInfo,
    result: AuditArbitrationResult,
) -> int {
    let fin = p.available_votes as int + 1 == p.arbiters@.len();
    let av1 = p.available_votes as int + 1;
    match result {
        AuditArbitrationResult::NoDiscrepancies => if fin && p.decided_deadline > 0 {
            p.decided_haircut as int / av1
        } else {
            p.decided_haircut as int
        },
        AuditArbitrationResult::MinorDiscrepancies => if fin {
            (p.decided_haircut as int + v.haircut_for_minor_discreapancies as int) / av1
        } else {
            p.decided_haircut as int + v.haircut_for_minor_discreapancies as int
        },
        AuditArbitrationResult::ModerateDiscrepancies => if fin {
            (p.decided_haircut as int + v.haircut_for_moderate_discrepancies as int) / av1
        } else {
            p.decided_haircut as int + v.haircut_for_moderate_discrepancies as int
        },
        AuditArbitrationResult::Reject => p.decided_haircut as int,
    }
}

/// How poll `q` relates to `p` after the vote of the arbiter at `idx` was
/// recorded: the roster position is marked, the counter grows by one, the
/// accumulators take the given values, and a finalizing vote retires the
/// active flag.
pub open spec fn poll_voted(
    p: VoteInfo,
    q: VoteInfo,
    idx: int,
    finalize: bool,
    dd: int,
    dh: int,
) -> bool {
    &&& q.audit_id == p.audit_id
    &&& q.arbiters@ == p.arbiters@.update(
        idx,
        (Arbiter { voter_address: p.arbiters@[idx].voter_address, has_voted: true }),
    )
    &&& q.is_active == (p.is_active && !finalize)
    &&& q.available_votes == p.available_votes + 1
    &&& q.decided_deadline as int == dd
    &&& q.decided_haircut as int == dh
    &&& q.admin_hit_time == p.admin_hit_time
}

/// The events a recorded vote appends to the log.
pub open spec fn vote_events(
    vid: u32,
    caller: AccountId,
    result: AuditArbitrationResult,
    finalize: bool,
) -> Seq<VotingEvent> {
    if finalize {
        seq![
            VotingEvent::ArbiterVoted(
                (ArbiterVoted { id: vid, voter: caller, vote_type: Some(result) }),
            ),
            VotingEvent::FinalVotePushed((FinalVotePushed { id: vid, pusher: caller })),
        ]
    } else {
        seq![
            VotingEvent::ArbiterVoted(
                (ArbiterVoted { id: vid, voter: caller, vote_type: Some(result) }),
            ),
        ]
    }
}

/// Outcome of `vote` for the eligible caller holding roster position
/// `idx` of an active poll: a used position is turned away, a finalizing
/// vote whose ledger call failed changes nothing, and every other vote is
/// recorded.
pub open spec fn vote_outcome(
    pre: Voting,
    post: Voting,
    vid: u32,
    result: AuditArbitrationResult,
    ext_call_ok: bool,
    caller: AccountId,
    idx: int,
    r: Result<(), Error>,
) -> bool {
    let p = pre.polls()[vid as int];
    if p.arbiters@[idx].has_voted {
        r == Err::<(), Error>(Error::VotingFailed) && post == pre
    } else if vote_finalizes(p, result) && !ext_call_ok {
        r == Err::<(), Error>(Error::AssessmentFailed) && post == pre
    } else {
        &&& r is Ok
        &&& voting_frame(pre, post, vid)
        &&& poll_voted(
            p,
            post.polls()[vid as int],
            idx,
            vote_finalizes(p, result),
            decided_deadline_after(pre, p, result),
            decided_haircut_after(pre, p, result),
        )
        &&& post.events@ == pre.events@ + vote_events(vid, caller, result, vote_finalizes(p, result))
    }
}

/// The deadline-extension accumulator after the admin forces the result:
/// the sum averaged over the votes cast, untouched when nobody voted.
pub open spec fn forced_deadline(p: VoteInfo) -> int {
    if p.available_votes > 0 {
        p.decided_deadline as int / p.available_votes as int
    } else {
        p.decided_deadline as int
    }
}

/// The haircut accumulator after the admin forces the result, mirroring
/// [`forced_deadline`].
pub open spec fn forced_haircut(p: VoteInfo) -> int {
    if p.available_votes > 0 {
        p.decided_haircut as int / p.available_votes as int
    } else {
        p.decided_haircut as int
    }
}

/// The treasury shares of the roster members that voted, in roster order.
pub open spec fn voted_shares(s: Seq<Arbiter>, per: Balance) -> Seq<(AccountId, Balance)>
    decreases s.len(),
{
    if s.len() == 0 {
        Seq::empty()
    } else {
        voted_shares(s.drop_last(), per) + (if s.last().has_voted {
            seq![(s.last().voter_address, per)]
        } else {
            Seq::empty()
        })
    }
}

/// Whether the finalizing ledger call that `caller`'s vote triggers (if
/// any) succeeds: a rejection is a negative assessment, a final verdict
/// with no decided extension is a positive one, and any other final verdict
/// asks for a deadline extension by the decided amounts.
pub open spec fn finalize_call_ok(
    v: Voting,
    e: Escrow,
    p: VoteInfo,
    result: AuditArbitrationResult,
    coordinator: AccountId,
    now: Timestamp,
    transfer_ok: bool,
) -> bool {
    if !vote_finalizes(p, result) {
        true
    } else if result is Reject {
        escrow::assess_result(e, p.audit_id, false, transfer_ok, coordinator) is Ok
    } else if decided_deadline_after(v, p, result) == 0 {
        escrow::assess_result(e, p.audit_id, true, transfer_ok, coordinator) is Ok
    } else {
        escrow::extend_result(
            e,
            p.audit_id,
            (now + decided_deadline_after(v, p, result)) as u64,
            decided_haircut_after(v, p, result) as Balance,
            v.arbiters_share,
            transfer_ok,
            coordinator,
            now,
        ) is Ok
    }
}

/// Whether the ledger call of a forced finalization succeeds, mirroring
/// [`finalize_call_ok`] over the forced decision.
pub open spec fn force_call_ok(
    v: Voting,
    e: Escrow,
    p: VoteInfo,
    coordinator: AccountId,
    now: Timestamp,
    transfer_ok: bool,
) -> bool {
    if forced_deadline(p) == 0 {
        escrow::assess_result(e, p.audit_id, true, transfer_ok, coordinator) is Ok
    } else {
        escrow::extend_result(
            e,
            p.audit_id,
            (now + forced_deadline(p)) as u64,
            forced_haircut(p) as Balance,
            v.arbiters_share,
            transfer_ok,
            coordinator,
            now,
        ) is Ok
    }
}

/// Frame of an operation that touches only poll `vid` and the event log:
/// every other poll, the counters, the configuration and the transfer
/// record stay.
pub open spec fn voting_frame(pre: Voting, post: Voting, vid: u32) -> bool {
    &&& post.vote_id_to_info@.len() == pre.vote_id_to_info@.len()
    &&& forall|j: int|
        0 <= j < pre.vote_id_to_info@.len() && j != vid as int
            ==> post.vote_id_to_info@[j] == #[trigger] pre.vote_id_to_info@[j]
    &&& post.current_vote_id == pre.current_vote_id
    &&& post.escrow_address == pre.escrow_address
    &&& post.admin == pre.admin
    &&& post.haircut_for_minor_discreapancies == pre.haircut_for_minor_discreapancies
    &&& post.haircut_for_moderate_discrepancies == pre.haircut_for_moderate_discrepancies
    &&& post.time_extension_for_minor_discrepancies == pre.time_extension_for_minor_discrepancies
    &&& post.time_extension_for_moderate_discrepancies
        == pre.time_extension_for_moderate_discrepancies
    &&& post.arbiters_share == pre.arbiters_share
    &&& post.payouts@ == pre.payouts@
    &&& post.token_flushes@ == pre.token_flushes@
}

/// The arbitration voting coordinator.  Poll ids are assigned sequentially,
/// so the keyed storage of the polls is an arena indexed by the poll id.
/// `payouts` records every treasury transfer the coordinator ordered, as
/// receiver and amount; `token_flushes` records every flush of an arbitrary
/// token, as token, receiver and amount.
pub struct Voting {
    pub current_vote_id: u32,
    pub escrow_address: AccountId,
    pub admin: AccountId,
    pub vote_id_to_info: Vec<VoteInfo>,
    pub haircut_for_minor_discreapancies: Balance,
    pub haircut_for_moderate_discrepancies: Balance,
    pub time_extension_for_minor_discrepancies: Timestamp,
    pub time_extension_for_moderate_discrepancies: Timestamp,
    pub arbiters_share: Balance,
    pub events: Vec<VotingEvent>,
    pub payouts: Vec<(AccountId, Balance)>,
    pub token_flushes: Vec<(AccountId, AccountId, Balance)>,
}

impl Voting {
    /// The stored polls, by poll id.
    pub open spec fn polls(self) -> Seq<VoteInfo> {
        self.vote_id_to_info@
    }

    /// Well-formedness of the coordinator: the arena runs in step with the
    /// id counter, every poll is well formed, and the configured haircuts
    /// stay within 90.
    pub open spec fn wf(self) -> bool {
        &&& self.current_vote_id as int == self.polls().len()
        &&& forall|i: int| 0 <= i < self.polls().len() ==> poll_wf(#[trigger] self.polls()[i])
        &&& self.haircut_for_minor_discreapancies <= 90
        &&& self.haircut_for_moderate_discrepancies <= 90
    }

    /// Creates a coordinator for the given escrow ledger under the given
    /// admin, with the default configuration: haircuts of 5 and 15, time
    /// extensions of seven and fifteen days, an arbiter share of 5.
    pub fn new(_escrow_address: AccountId, _admin: AccountId) -> (v: Voting)
        ensures
            v.wf(),
            v.current_vote_id == 0,
            v.escrow_address == _escrow_address,
            v.admin == _admin,
            v.polls() == Seq::<VoteInfo>::empty(),
            v.events@ == Seq::<VotingEvent>::empty(),
            v.payouts@ == Seq::<(AccountId, Balance)>::empty(),
            v.token_flushes@ == Seq::<(AccountId, AccountId, Balance)>::empty(),
            v.haircut_for_minor_discreapancies == 5,
            v.haircut_for_moderate_discrepancies == 15,
            v.time_extension_for_minor_discrepancies == 604800000,
            v.time_extension_for_moderate_discrepancies == 1296000000,
            v.arbiters_share == 5,
    {
        Voting {
            current_vote_id: 0,
            escrow_address: _escrow_address,
            admin: _admin,
            vote_id_to_info: Vec::new(),
            haircut_for_minor_discreapancies: 5,
            haircut_for_moderate_discrepancies: 15,
            time_extension_for_minor_discrepancies: 604800000,
            time_extension_for_moderate_discrepancies: 1296000000,
            arbiters_share: 5,
            events: Vec::new(),
            payouts: Vec::new(),
            token_flushes: Vec::new(),
        }
    }

    /// The next poll id to be assigned, equal to the number of polls opened
    /// so far.
    pub fn get_current_vote_id(&self) -> (id: u32)
        ensures
            id == self.current_vote_id,
    {
        self.current_vote_id
    }

    /// The escrow ledger this coordinator settles disputes for.
    pub fn know_your_escrow(&self) -> (a: AccountId)
        ensures
            a == self.escrow_address,
    {
        self.escrow_address
    }

    /// The share of the audit value the arbiter provider earns on an
    /// arbiter-driven deadline extension.
    pub fn know_arbiters_share(&self) -> (s: Balance)
        ensures
            s == self.arbiters_share,
    {
        self.arbiters_share
    }

    /// The coordinator's admin.
    pub fn know_your_admin(&self) -> (a: AccountId)
        ensures
            a == self.admin,
    {
        self.admin
    }

    /// The poll stored under a poll id, if one was ever opened under it.
    pub fn get_poll_info(&self, _id: u32) -> (r: Option<VoteInfo>)
        ensures
            _id < self.polls().len() ==> ({
                let p = self.polls()[_id as int];
                &&& r matches Some(q)
                &&& q.audit_id == p.audit_id
                &&& q.arbiters@ == p.arbiters@
                &&& q.is_active == p.is_active
                &&& q.available_votes == p.available_votes
                &&& q.decided_deadline == p.decided_deadline
                &&& q.decided_haircut == p.decided_haircut
                &&& q.admin_hit_time == p.admin_hit_time
            }),
            _id >= self.polls().len() ==> r is None,
    {
        if (_id as usize) < self.vote_id_to_info.len() {
            let p = &self.vote_id_to_info[_id as usize];
            Some(VoteInfo {
                audit_id: p.audit_id,
                arbiters: clone_arbiters(&p.arbiters),
                is_active: p.is_active,
                available_votes: p.available_votes,
                decided_deadline: p.decided_deadline,
                decided_haircut: p.decided_haircut,
                admin_hit_time: p.admin_hit_time,
            })
        } else {
            None
        }
    }

    /// The configured deadline extension for minor (`true`) or moderate
    /// (`false`) discrepancies.
    pub fn get_time_extension_info(&self, for_minor: bool) -> (t: Timestamp)
        ensures
            for_minor ==> t == self.time_extension_for_minor_discrepancies,
            !for_minor ==> t == self.time_extension_for_moderate_discrepancies,
    {
        if for_minor {
            self.time_extension_for_minor_discrepancies
        } else {
            self.time_extension_for_moderate_discrepancies
        }
    }

    /// The configured haircut for minor (`true`) or moderate (`false`)
    /// discrepancies.
    pub fn get_haircut_info(&self, for_minor: bool) -> (h: Balance)
        ensures
            for_minor ==> h == self.haircut_for_minor_discreapancies,
            !for_minor ==> h == self.haircut_for_moderate_discrepancies,
    {
        if for_minor {
            self.haircut_for_minor_discreapancies
        } else {
            self.haircut_for_moderate_discrepancies
        }
    }

    /// Opens a poll for the disputed audit with the given fixed roster and
    /// admin-override time.  The roster is stored with every has-voted flag
    /// cleared: a poll starts with zero votes cast, whatever the flags of
    /// the roster handed in.  Only the admin may call; anyone else is turned
    /// away and nothing changes.
    pub fn create_new_poll(
        &mut self,
        _audit_id: u32,
        _buffer_for_admin: Timestamp,
        _arbiters: Vec<Arbiter>,
        caller: AccountId,
    ) -> (r: Result<(), Error>)
        requires
            old(self).wf(),
            old(self).current_vote_id < u32::MAX,
            _arbiters@.len() <= 255,
        ensures
            final(self).wf(),
            caller != old(self).admin ==> r == Err::<(), Error>(Error::UnAuthorisedCall) && *final(self)
                == *old(self),
            caller == old(self).admin ==> ({
                let q = final(self).polls().last();
                &&& r is Ok
                &&& final(self).polls().len() == old(self).polls().len() + 1
                &&& final(self).polls().drop_last() == old(self).polls()
                &&& q.audit_id == _audit_id
                &&& q.arbiters@.len() == _arbiters@.len()
                &&& forall|i: int|
                    0 <= i < _arbiters@.len() ==> #[trigger] q.arbiters@[i] == (Arbiter {
                        voter_address: _arbiters@[i].voter_address,
                        has_voted: false,
                    })
                &&& q.is_active
                &&& q.available_votes == 0
                &&& q.decided_deadline == 0
                &&& q.decided_haircut == 0
                &&& q.admin_hit_time == _buffer_for_admin
                &&& final(self).current_vote_id == old(self).current_vote_id + 1
                &&& final(self).events@.len() == old(self).events@.len() + 1
                &&& final(self).events@.drop_last() == old(self).events@
                &&& final(self).events@.last() matches VotingEvent::PollCreated(pc)
                    && pc.id == old(self).current_vote_id && pc.vote_info.audit_id == _audit_id
                    && pc.vote_info.arbiters@ == q.arbiters@ && pc.vote_info.is_active
                &&& final(self).escrow_address == old(self).escrow_address
                &&& final(self).admin == old(self).admin
                &&& final(self).payouts@ == old(self).payouts@
                &&& final(self).token_flushes@ == old(self).token_flushes@
            }),
    {
        if caller != self.admin {
            return Err(Error::UnAuthorisedCall);
        }
        let roster = unmarked_roster(&_arbiters);
        let event_roster = unmarked_roster(&_arbiters);
        let x = VoteInfo {
            audit_id: _audit_id,
            arbiters: roster,
            is_active: true,
            available_votes: 0,
            decided_deadline: 0,
            decided_haircut: 0,
            admin_hit_time: _buffer_for_admin,
        };
        self.vote_id_to_info.push(x);
        self.events.push(VotingEvent::PollCreated(PollCreated {
            id: self.current_vote_id,
            vote_info: VoteInfo {
                audit_id: _audit_id,
                arbiters: event_roster,
                is_active: true,
                available_votes: 0,
                decided_deadline: 0,
                decided_haircut: 0,
                admin_hit_time: _buffer_for_admin,
            },
        }));
        self.current_vote_id = self.current_vote_id + 1;
        proof {
            lemma_count_voted_none(self.polls().last().arbiters@);
            assert(self.polls().drop_last() =~= old(self).polls());
            assert(self.events@.drop_last() =~= old(self).events@);
            assert(self.polls().last().arbiters@ =~= self.events@.last()->PollCreated_0.vote_info.arbiters@);
        }
        Ok(())
    }
    /// Forces the result of a still-open poll from whatever has accumulated
    /// so far.  Only the admin may call, only once the poll's override time
    /// has passed, and only while the poll is active; both accumulators are
    /// averaged over the votes cast so far (left alone when nobody voted),
    /// and the poll commits as finalized only when the finalizing ledger
    /// call went through (`_pre_determined_ext_call`); otherwise nothing
    /// changes.
    pub fn force_vote(
        &mut self,
        _vote_id: u32,
        _pre_determined_ext_call: bool,
        caller: AccountId,
        now: Timestamp,
    ) -> (r: Result<(), Error>)
        requires
            old(self).wf(),
            _vote_id < old(self).polls().len(),
        ensures
            final(self).wf(),
            ({
                let p = old(self).polls()[_vote_id as int];
                &&& caller != old(self).admin ==> r == Err::<(), Error>(Error::UnAuthorisedCall)
                    && *final(self) == *old(self)
                &&& caller == old(self).admin && p.admin_hit_time > now ==> r == Err::<(), Error>(
                    Error::RightsNotActivatedYet,
                ) && *final(self) == *old(self)
                &&& caller == old(self).admin && p.admin_hit_time <= now && !p.is_active ==> r
                    == Err::<(), Error>(Error::ResultAlreadyPublished) && *final(self) == *old(self)
                &&& caller == old(self).admin && p.admin_hit_time <= now && p.is_active
                    && !_pre_determined_ext_call ==> r == Err::<(), Error>(Error::AssessmentFailed)
                    && *final(self) == *old(self)
                &&& caller == old(self).admin && p.admin_hit_time <= now && p.is_active
                    && _pre_determined_ext_call ==> ({
                    let q = final(self).polls()[_vote_id as int];
                    &&& r is Ok
                    &&& voting_frame(*old(self), *final(self), _vote_id)
                    &&& q.audit_id == p.audit_id
                    &&& q.arbiters@ == p.arbiters@
                    &&& !q.is_active
                    &&& q.available_votes == p.available_votes
                    &&& q.decided_deadline as int == forced_deadline(p)
                    &&& q.decided_haircut as int == forced_haircut(p)
                    &&& q.admin_hit_time == p.admin_hit_time
                    &&& final(self).events@ == old(self).events@.push(
                        VotingEvent::FinalVotePushed(
                            (FinalVotePushed { id: _vote_id, pusher: caller }),
                        ),
                    )
                })
            }),
            forall|j: int|
                0 <= j < old(self).polls().len() && !(#[trigger] old(self).polls()[j]).is_active
                    ==> final(self).polls()[j] == old(self).polls()[j],
    {
        if caller != self.admin {
            return Err(Error::UnAuthorisedCall);
        }
        let vid = _vote_id as usize;
        if self.vote_id_to_info[vid].admin_hit_time > now {
            return Err(Error::RightsNotActivatedYet);
        }
        if !self.vote_id_to_info[vid].is_active {
            return Err(Error::ResultAlreadyPublished);
        }
        if !_pre_determined_ext_call {
            return Err(Error::AssessmentFailed);
        }
        let av = self.vote_id_to_info[vid].available_votes;
        proof {
            if av > 0 {
                vstd::arithmetic::div_mod::lemma_div_nonincreasing(
                    self.polls()[_vote_id as int].decided_deadline as int,
                    av as int,
                );
                vstd::arithmetic::div_mod::lemma_div_nonincreasing(
                    self.polls()[_vote_id as int].decided_haircut as int,
                    av as int,
                );
            }
        }
        let p = &mut self.vote_id_to_info[vid];
        if av > 0 {
            // Explicit guard for a poll nobody voted on: the accumulators
            // are then still zero and stay so.
            p.decided_deadline = p.decided_deadline / (av as u64);
            p.decided_haircut = p.decided_haircut / (av as Balance);
        }
        p.is_active = false;
        self.events.push(VotingEvent::FinalVotePushed(FinalVotePushed {
            id: _vote_id,
            pusher: caller,
        }));
        proof {
            assert forall|i: int| 0 <= i < self.polls().len() implies poll_wf(
                #[trigger] self.polls()[i],
            ) by {
                assert(poll_wf(old(self).polls()[i]));
            }
        }
        Ok(())
    }

    /// Distributes treasury funds for a finalized poll: the whole amount to
    /// the admin when nobody voted, otherwise an equal (truncating) share to
    /// every arbiter who did, one share per counted vote, so the total never
    /// exceeds the released amount.  Only the admin may call, and only on an
    /// inactive poll.
    pub fn release_treasury_funds(&mut self, _vote_id: u32, amount: Balance, caller: AccountId) -> (r:
        Result<(), Error>)
        requires
            old(self).wf(),
            _vote_id < old(self).polls().len(),
        ensures
            final(self).wf(),
            ({
                let p = old(self).polls()[_vote_id as int];
                &&& caller != old(self).admin || p.is_active ==> r == Err::<(), Error>(
                    Error::UnAuthorisedCall,
                ) && *final(self) == *old(self)
                &&& caller == old(self).admin && !p.is_active ==> ({
                    &&& r is Ok
                    &&& final(self).polls() == old(self).polls()
                    &&& final(self).current_vote_id == old(self).current_vote_id
                    &&& final(self).admin == old(self).admin
                    &&& final(self).escrow_address == old(self).escrow_address
                    &&& final(self).token_flushes@ == old(self).token_flushes@
                    &&& p.available_votes == 0 ==> final(self).payouts@ == old(self).payouts@.push(
                        (old(self).admin, amount),
                    ) && final(self).events@ == old(self).events@.push(
                        VotingEvent::NoOneVotedTransferredToAdmin(
                            (NoOneVotedTransferredToAdmin { id: _vote_id, amount: amount }),
                        ),
                    )
                    &&& p.available_votes > 0 ==> ({
                        let per = amount / p.available_votes as Balance;
                        &&& final(self).payouts@ == old(self).payouts@ + voted_shares(
                            p.arbiters@,
                            per,
                        )
                        &&& voted_shares(p.arbiters@, per).len() == p.available_votes as int
                        &&& per as int * p.available_votes as int <= amount
                        &&& final(self).events@ == old(self).events@
                    })
                })
            }),
    {
        if caller != self.admin || self.vote_id_to_info[_vote_id as usize].is_active {
            return Err(Error::UnAuthorisedCall);
        }
        let vid = _vote_id as usize;
        let total_voters = self.vote_id_to_info[vid].available_votes;
        if total_voters == 0 {
            self.payouts.push((self.admin, amount));
            self.events.push(VotingEvent::NoOneVotedTransferredToAdmin(
                NoOneVotedTransferredToAdmin { id: _vote_id, amount: amount },
            ));
            return Ok(());
        }
        let per_voter_share = amount / (total_voters as Balance);
        let ghost pre_payouts = self.payouts@;
        let n = self.vote_id_to_info[vid].arbiters.len();
        let mut i: usize = 0;
        while i < n
            invariant
                n == self.vote_id_to_info@[vid as int].arbiters@.len(),
                vid < self.vote_id_to_info@.len(),
                i <= n,
                self.payouts@ == pre_payouts + voted_shares(
                    self.vote_id_to_info@[vid as int].arbiters@.take(i as int),
                    per_voter_share,
                ),
                forall|k: int|
                    0 <= k < self.vote_id_to_info@.len()
                        ==> #[trigger] self.vote_id_to_info@[k] == old(self).vote_id_to_info@[k],
                self.vote_id_to_info@.len() == old(self).vote_id_to_info@.len(),
                self.events@ == old(self).events@,
                self.current_vote_id == old(self).current_vote_id,
                self.admin == old(self).admin,
                self.escrow_address == old(self).escrow_address,
                self.haircut_for_minor_discreapancies == old(self).haircut_for_minor_discreapancies,
                self.haircut_for_moderate_discrepancies == old(
                    self,
                ).haircut_for_moderate_discrepancies,
                self.time_extension_for_minor_discrepancies == old(
                    self,
                ).time_extension_for_minor_discrepancies,
                self.time_extension_for_moderate_discrepancies == old(
                    self,
                ).time_extension_for_moderate_discrepancies,
                self.arbiters_share == old(self).arbiters_share,
                self.token_flushes@ == old(self).token_flushes@,
            decreases n - i,
        {
            let x = self.vote_id_to_info[vid].arbiters[i];
            if x.has_voted {
                self.payouts.push((x.voter_address, per_voter_share));
            }
            proof {
                let s = self.vote_id_to_info@[vid as int].arbiters@;
                assert(s.take(i as int + 1).drop_last() =~= s.take(i as int));
                assert(self.payouts@ =~= pre_payouts + voted_shares(
                    s.take(i as int + 1),
                    per_voter_share,
                ));
            }
            i = i + 1;
        }
        proof {
            let s = self.vote_id_to_info@[vid as int].arbiters@;
            assert(s.take(n as int) =~= s);
            assert(self.polls() =~= old(self).polls());
            lemma_voted_shares_len(s, per_voter_share);
            vstd::arithmetic::div_mod::lemma_fundamental_div_mod(
                amount as int,
                total_voters as int,
            );
            vstd::arithmetic::div_mod::lemma_mod_bound(amount as int, total_voters as int);
        }
        Ok(())
    }

    /// Sends `_value` of the token at `_token_address` to the admin and
    /// records the flush with that token's address.  Only the admin may
    /// call; a failed transfer changes nothing.
    pub fn flush_out_tokens(
        &mut self,
        _token_address: AccountId,
        _value: Balance,
        _pre_determined_ext_call: bool,
        caller: AccountId,
    ) -> (r: Result<(), Error>)
        requires
            old(self).wf(),
        ensures
            final(self).wf(),
            caller != old(self).admin ==> r == Err::<(), Error>(Error::UnAuthorisedCall) && *final(self)
                == *old(self),
            caller == old(self).admin && !_pre_determined_ext_call ==> r == Err::<(), Error>(
                Error::TransferFailed,
            ) && *final(self) == *old(self),
            caller == old(self).admin && _pre_determined_ext_call ==> ({
                &&& r is Ok
                &&& final(self).token_flushes@ == old(self).token_flushes@.push(
                    (_token_address, old(self).admin, _value),
                )
                &&& final(self).payouts@ == old(self).payouts@
                &&& final(self).polls() == old(self).polls()
                &&& final(self).events@ == old(self).events@
            }),
    {
        if caller == self.admin {
            if _pre_determined_ext_call {
                self.token_flushes.push((_token_address, self.admin, _value));
                Ok(())
            } else {
                Err(Error::TransferFailed)
            }
        } else {
            Err(Error::UnAuthorisedCall)
        }
    }

    /// Reconfigures the haircut charged for minor (`true`) or moderate
    /// (`false`) discrepancies.  Only the admin may call, and the new
    /// haircut may not exceed 90.
    pub fn change_haircut_for_discrepancies(
        &mut self,
        change_minor: bool,
        new_haircut: Balance,
        caller: AccountId,
    ) -> (r: Result<(), Error>)
        requires
            old(self).wf(),
        ensures
            final(self).wf(),
            caller != old(self).admin ==> r == Err::<(), Error>(Error::UnAuthorisedCall) && *final(self)
                == *old(self),
            caller == old(self).admin && new_haircut > 90 ==> r == Err::<(), Error>(
                Error::ValueTooHigh,
            ) && *final(self) == *old(self),
            caller == old(self).admin && new_haircut <= 90 ==> ({
                &&& r is Ok
                &&& change_minor ==> *final(self) == (Voting {
                    haircut_for_minor_discreapancies: new_haircut,
                    ..*old(self)
                })
                &&& !change_minor ==> *final(self) == (Voting {
                    haircut_for_moderate_discrepancies: new_haircut,
                    ..*old(self)
                })
            }),
    {
        if caller != self.admin {
            return Err(Error::UnAuthorisedCall);
        }
        if new_haircut > 90 {
            return Err(Error::ValueTooHigh);
        }
        if change_minor {
            self.haircut_for_minor_discreapancies = new_haircut;
        } else {
            self.haircut_for_moderate_discrepancies = new_haircut;
        }
        Ok(())
    }

    /// Reconfigures the deadline extension granted for minor (`true`) or
    /// moderate (`false`) discrepancies.  Only the admin may call, and the
    /// new extension must be at least one day.
    pub fn change_time_extension_for_discrepancies(
        &mut self,
        change_minor: bool,
        new_extension: Timestamp,
        caller: AccountId,
    ) -> (r: Result<(), Error>)
        requires
            old(self).wf(),
        ensures
            final(self).wf(),
            caller != old(self).admin ==> r == Err::<(), Error>(Error::UnAuthorisedCall) && *final(self)
                == *old(self),
            caller == old(self).admin && new_extension < 86400000 ==> r == Err::<(), Error>(
                Error::ValueTooLow,
            ) && *final(self) == *old(self),
            caller == old(self).admin && new_extension >= 86400000 ==> ({
                &&& r is Ok
                &&& change_minor ==> *final(self) == (Voting {
                    time_extension_for_minor_discrepancies: new_extension,
                    ..*old(self)
                })
                &&& !change_minor ==> *final(self) == (Voting {
                    time_extension_for_moderate_discrepancies: new_extension,
                    ..*old(self)
                })
            }),
    {
        if caller != self.admin {
            return Err(Error::UnAuthorisedCall);
        }
        if new_extension < 86400000 {
            return Err(Error::ValueTooLow);
        }
        if change_minor {
            self.time_extension_for_minor_discrepancies = new_extension;
        } else {
            self.time_extension_for_moderate_discrepancies = new_extension;
        }
        Ok(())
    }

    /// Reconfigures the arbiter provider's share of an arbiter-driven
    /// deadline extension.  Only the admin may call.
    pub fn change_arbiters_share(&mut self, new_share: Balance, caller: AccountId) -> (r: Result<
        (),
        Error,
    >)
        requires
            old(self).wf(),
        ensures
            final(self).wf(),
            caller != old(self).admin ==> r == Err::<(), Error>(Error::UnAuthorisedCall) && *final(self)
                == *old(self),
            caller == old(self).admin ==> r is Ok && *final(self) == (Voting {
                arbiters_share: new_share,
                ..*old(self)
            }),
    {
        if caller != self.admin {
            return Err(Error::UnAuthorisedCall);
        }
        self.arbiters_share = new_share;
        Ok(())
    }

    /// Casts `caller`'s vote and, where the vote finalizes the poll, issues
    /// the finalizing call into the escrow ledger itself: a rejection
    /// assesses the audit negatively, a final verdict with no decided
    /// extension assesses it positively, and any other final verdict asks
    /// the ledger for a deadline extension by the decided averages.  The
    /// poll commits only when that call succeeded.  `coordinator` is the
    /// identity under which the coordinator itself calls the ledger (its own
    /// account, as resolved by the hosting environment); `transfer_ok` is
    /// the outcome of the value transfers the ledger may order.
    pub fn vote_on_audit(
        &mut self,
        ledger: &mut Escrow,
        _vote_id: u32,
        _result: AuditArbitrationResult,
        caller: AccountId,
        coordinator: AccountId,
        now: Timestamp,
        transfer_ok: bool,
    ) -> (r: Result<(), Error>)
        requires
            old(self).wf(),
            old(ledger).wf(),
            _vote_id < old(self).polls().len(),
            may_accumulate(old(self).polls()[_vote_id as int], caller) && _result
                is MinorDiscrepancies ==> old(self).polls()[_vote_id as int].decided_deadline
                + old(self).time_extension_for_minor_discrepancies <= u64::MAX,
            may_accumulate(old(self).polls()[_vote_id as int], caller) && _result
                is ModerateDiscrepancies ==> old(self).polls()[_vote_id as int].decided_deadline
                + old(self).time_extension_for_moderate_discrepancies <= u64::MAX,
            may_accumulate(old(self).polls()[_vote_id as int], caller) && vote_finalizes(
                old(self).polls()[_vote_id as int],
                _result,
            ) ==> old(self).polls()[_vote_id as int].audit_id < old(ledger).n(),
            may_accumulate(old(self).polls()[_vote_id as int], caller) && vote_finalizes(
                old(self).polls()[_vote_id as int],
                _result,
            ) && !(_result is Reject) && decided_deadline_after(
                *old(self),
                old(self).polls()[_vote_id as int],
                _result,
            ) > 0 ==> now + escrow::MIN_EXTENSION_MARGIN <= u64::MAX && now + decided_deadline_after(
                *old(self),
                old(self).polls()[_vote_id as int],
                _result,
            ) <= u64::MAX,
        ensures
            final(self).wf(),
            final(ledger).wf(),
            old(ledger).conserves() ==> final(ledger).conserves(),
            ({
                let p = old(self).polls()[_vote_id as int];
                let ok = finalize_call_ok(
                    *old(self),
                    *old(ledger),
                    p,
                    _result,
                    coordinator,
                    now,
                    transfer_ok,
                );
                let dd = decided_deadline_after(*old(self), p, _result);
                let dh = decided_haircut_after(*old(self), p, _result);
                &&& !p.is_active ==> r == Err::<(), Error>(Error::ResultAlreadyPublished)
                    && *final(self) == *old(self) && *final(ledger) == *old(ledger)
                &&& p.is_active && !in_roster(p.arbiters@, caller) ==> r == Err::<(), Error>(
                    Error::UnAuthorisedCall,
                ) && *final(self) == *old(self) && *final(ledger) == *old(ledger)
                &&& p.is_active ==> forall|idx: int|
                    #[trigger] first_voter_index(p.arbiters@, caller, idx) ==> ({
                        &&& vote_outcome(
                            *old(self),
                            *final(self),
                            _vote_id,
                            _result,
                            ok,
                            caller,
                            idx,
                            r,
                        )
                        &&& p.arbiters@[idx].has_voted || !vote_finalizes(p, _result)
                            ==> *final(ledger) == *old(ledger)
                        &&& !p.arbiters@[idx].has_voted && _result is Reject
                            ==> escrow::assess_transition(
                            *old(ledger),
                            *final(ledger),
                            p.audit_id,
                            false,
                            transfer_ok,
                            coordinator,
                            escrow::assess_result(
                                *old(ledger),
                                p.audit_id,
                                false,
                                transfer_ok,
                                coordinator,
                            ),
                        )
                        &&& !p.arbiters@[idx].has_voted && !(_result is Reject) && vote_finalizes(
                            p,
                            _result,
                        ) && dd == 0 ==> escrow::assess_transition(
                            *old(ledger),
                            *final(ledger),
                            p.audit_id,
                            true,
                            transfer_ok,
                            coordinator,
                            escrow::assess_result(
                                *old(ledger),
                                p.audit_id,
                                true,
                                transfer_ok,
                                coordinator,
                            ),
                        )
                        &&& !p.arbiters@[idx].has_voted && !(_result is Reject) && vote_finalizes(
                            p,
                            _result,
                        ) && dd > 0 ==> escrow::extend_transition(
                            *old(ledger),
                            *final(ledger),
                            p.audit_id,
                            (now + dd) as u64,
                            dh as Balance,
                            old(self).arbiters_share,
                            transfer_ok,
                            coordinator,
                            now,
                            escrow::extend_result(
                                *old(ledger),
                                p.audit_id,
                                (now + dd) as u64,
                                dh as Balance,
                                old(self).arbiters_share,
                                transfer_ok,
                                coordinator,
                                now,
                            ),
                        )
                    })
            }),
            forall|j: int|
                0 <= j < old(self).polls().len() && !(#[trigger] old(self).polls()[j]).is_active
                    ==> final(self).polls()[j] == old(self).polls()[j],
    {
        let vid = _vote_id as usize;
        if !self.vote_id_to_info[vid].is_active {
            return Err(Error::ResultAlreadyPublished);
        }
        let index = find_arbiter(&self.vote_id_to_info[vid].arbiters, caller);
        if index >= self.vote_id_to_info[vid].arbiters.len() {
            return Err(Error::UnAuthorisedCall);
        }
        if self.vote_id_to_info[vid].arbiters[index].has_voted {
            return Err(Error::VotingFailed);
        }
        proof {
            assert(first_voter_index(self.polls()[_vote_id as int].arbiters@, caller, index as int));
            assert(may_accumulate(self.polls()[_vote_id as int], caller));
        }
        let av = self.vote_id_to_info[vid].available_votes;
        let dd = self.vote_id_to_info[vid].decided_deadline;
        let dh = self.vote_id_to_info[vid].decided_haircut;
        let n = self.vote_id_to_info[vid].arbiters.len();
        let audit_id = self.vote_id_to_info[vid].audit_id;
        let finalize = matches!(_result, AuditArbitrationResult::Reject) || av as usize + 1 == n;
        let ok: bool;
        if !finalize {
            ok = true;
        } else if matches!(_result, AuditArbitrationResult::Reject) {
            ok = ledger.assess_audit(audit_id, false, transfer_ok, coordinator).is_ok();
        } else {
            let av1_64: u64 = av as u64 + 1;
            let av1_128: Balance = av as Balance + 1;
            let (avg_dd, avg_dh): (Timestamp, Balance) = match _result {
                AuditArbitrationResult::NoDiscrepancies => {
                    if dd > 0 {
                        (dd / av1_64, dh / av1_128)
                    } else {
                        (dd, dh)
                    }
                },
                AuditArbitrationResult::MinorDiscrepancies => {
                    (
                        (dd + self.time_extension_for_minor_discrepancies) / av1_64,
                        (dh + self.haircut_for_minor_discreapancies) / av1_128,
                    )
                },
                AuditArbitrationResult::ModerateDiscrepancies => {
                    (
                        (dd + self.time_extension_for_moderate_discrepancies) / av1_64,
                        (dh + self.haircut_for_moderate_discrepancies) / av1_128,
                    )
                },
                AuditArbitrationResult::Reject => (dd, dh),
            };
            if avg_dd == 0 {
                ok = ledger.assess_audit(audit_id, true, transfer_ok, coordinator).is_ok();
            } else {
                ok = ledger.arbiters_extend_deadline(
                    audit_id,
                    now + avg_dd,
                    avg_dh,
                    self.arbiters_share,
                    transfer_ok,
                    coordinator,
                    now,
                ).is_ok();
            }
        }
        self.vote(_vote_id, _result, ok, caller)
    }

    /// Forces the result of a still-open poll and issues the finalizing
    /// ledger call itself, dividing the accumulated sums by the votes cast
    /// so far: with no decided extension the audit is assessed positively,
    /// otherwise the ledger is asked for a deadline extension by the decided
    /// averages.  The poll commits as finalized only when that call
    /// succeeded.  `coordinator` and `transfer_ok` are as in
    /// [`Voting::vote_on_audit`].
    pub fn force_vote_on_audit(
        &mut self,
        ledger: &mut Escrow,
        _vote_id: u32,
        caller: AccountId,
        coordinator: AccountId,
        now: Timestamp,
        transfer_ok: bool,
    ) -> (r: Result<(), Error>)
        requires
            old(self).wf(),
            old(ledger).wf(),
            _vote_id < old(self).polls().len(),
            caller == old(self).admin && old(self).polls()[_vote_id as int].admin_hit_time <= now
                && old(self).polls()[_vote_id as int].is_active ==> old(
                self,
            ).polls()[_vote_id as int].audit_id < old(ledger).n(),
            caller == old(self).admin && old(self).polls()[_vote_id as int].admin_hit_time <= now
                && old(self).polls()[_vote_id as int].is_active && forced_deadline(
                old(self).polls()[_vote_id as int],
            ) > 0 ==> now + escrow::MIN_EXTENSION_MARGIN <= u64::MAX && now + forced_deadline(
                old(self).polls()[_vote_id as int],
            ) <= u64::MAX,
        ensures
            final(self).wf(),
            final(ledger).wf(),
            old(ledger).conserves() ==> final(ledger).conserves(),
            ({
                let p = old(self).polls()[_vote_id as int];
                let ok = force_call_ok(*old(self), *old(ledger), p, coordinator, now, transfer_ok);
                &&& caller != old(self).admin ==> r == Err::<(), Error>(Error::UnAuthorisedCall)
                    && *final(self) == *old(self) && *final(ledger) == *old(ledger)
                &&& caller == old(self).admin && p.admin_hit_time > now ==> r == Err::<(), Error>(
                    Error::RightsNotActivatedYet,
                ) && *final(self) == *old(self) && *final(ledger) == *old(ledger)
                &&& caller == old(self).admin && p.admin_hit_time <= now && !p.is_active ==> r
                    == Err::<(), Error>(Error::ResultAlreadyPublished) && *final(self) == *old(self)
                    && *final(ledger) == *old(ledger)
                &&& caller == old(self).admin && p.admin_hit_time <= now && p.is_active ==> ({
                    &&& forced_deadline(p) == 0 ==> escrow::assess_transition(
                        *old(ledger),
                        *final(ledger),
                        p.audit_id,
                        true,
                        transfer_ok,
                        coordinator,
                        escrow::assess_result(
                            *old(ledger),
                            p.audit_id,
                            true,
                            transfer_ok,
                            coordinator,
                        ),
                    )
                    &&& forced_deadline(p) > 0 ==> escrow::extend_transition(
                        *old(ledger),
                        *final(ledger),
                        p.audit_id,
                        (now + forced_deadline(p)) as u64,
                        forced_haircut(p) as Balance,
                        old(self).arbiters_share,
                        transfer_ok,
                        coordinator,
                        now,
                        escrow::extend_result(
                            *old(ledger),
                            p.audit_id,
                            (now + forced_deadline(p)) as u64,
                            forced_haircut(p) as Balance,
                            old(self).arbiters_share,
                            transfer_ok,
                            coordinator,
                            now,
                        ),
                    )
                    &&& !ok ==> r == Err::<(), Error>(Error::AssessmentFailed) && *final(self)
                        == *old(self)
                    &&& ok ==> ({
                        let q = final(self).polls()[_vote_id as int];
                        &&& r is Ok
                        &&& voting_frame(*old(self), *final(self), _vote_id)
                        &&& q.audit_id == p.audit_id
                        &&& q.arbiters@ == p.arbiters@
                        &&& !q.is_active
                        &&& q.available_votes == p.available_votes
                        &&& q.decided_deadline as int == forced_deadline(p)
                        &&& q.decided_haircut as int == forced_haircut(p)
                        &&& q.admin_hit_time == p.admin_hit_time
                        &&& final(self).events@ == old(self).events@.push(
                            VotingEvent::FinalVotePushed(
                                (FinalVotePushed { id: _vote_id, pusher: caller }),
                            ),
                        )
                    })
                })
            }),
            forall|j: int|
                0 <= j < old(self).polls().len() && !(#[trigger] old(self).polls()[j]).is_active
                    ==> final(self).polls()[j] == old(self).polls()[j],
    {
        if caller != self.admin {
            return Err(Error::UnAuthorisedCall);
        }
        let vid = _vote_id as usize;
        if self.vote_id_to_info[vid].admin_hit_time > now {
            return Err(Error::RightsNotActivatedYet);
        }
        if !self.vote_id_to_info[vid].is_active {
            return Err(Error::ResultAlreadyPublished);
        }
        let av = self.vote_id_to_info[vid].available_votes;
        let dd = self.vote_id_to_info[vid].decided_deadline;
        let dh = self.vote_id_to_info[vid].decided_haircut;
        let audit_id = self.vote_id_to_info[vid].audit_id;
        let (fd, fh): (Timestamp, Balance) = if av > 0 {
            (dd / av as u64, dh / av as Balance)
        } else {
            (dd, dh)
        };
        let ok: bool;
        if fd == 0 {
            ok = ledger.assess_audit(audit_id, true, transfer_ok, coordinator).is_ok();
        } else {
            ok = ledger.arbiters_extend_deadline(
                audit_id,
                now + fd,
                fh,
                self.arbiters_share,
                transfer_ok,
                coordinator,
                now,
            ).is_ok();
        }
        self.force_vote(_vote_id, ok, caller, now)
    }

    /// Records the vote of the arbiter at `index`: marks the roster
    /// position, bumps the vote counter, stores the new accumulator values,
    /// retires the active flag on a finalizing vote and logs the events.
    fn commit_vote(
        &mut self,
        _vote_id: u32,
        index: usize,
        caller: AccountId,
        _result: AuditArbitrationResult,
        finalize: bool,
        dd: Timestamp,
        dh: Balance,
    )
        requires
            _vote_id < old(self).polls().len(),
            index < old(self).polls()[_vote_id as int].arbiters@.len(),
            old(self).polls()[_vote_id as int].available_votes < 255,
        ensures
            voting_frame(*old(self), *final(self), _vote_id),
            poll_voted(
                old(self).polls()[_vote_id as int],
                final(self).polls()[_vote_id as int],
                index as int,
                finalize,
                dd as int,
                dh as int,
            ),
            final(self).events@ == old(self).events@ + vote_events(_vote_id, caller, _result, finalize),
    {
        let p = &mut self.vote_id_to_info[_vote_id as usize];
        let voter_addr = p.arbiters[index].voter_address;
        p.arbiters[index] = Arbiter { voter_address: voter_addr, has_voted: true };
        p.available_votes = p.available_votes + 1;
        p.decided_deadline = dd;
        p.decided_haircut = dh;
        if finalize {
            p.is_active = false;
        }
        self.events.push(VotingEvent::ArbiterVoted(ArbiterVoted {
            id: _vote_id,
            voter: caller,
            vote_type: Some(_result),
        }));
        if finalize {
            self.events.push(VotingEvent::FinalVotePushed(FinalVotePushed {
                id: _vote_id,
                pusher: caller,
            }));
        }
        proof {
            assert(self.events@ =~= old(self).events@ + vote_events(
                _vote_id,
                caller,
                _result,
                finalize,
            ));
        }
    }

    /// Casts `caller`'s vote on a poll.  The poll must still be active, the
    /// caller must hold an unused roster position, and a vote that triggers
    /// the finalizing ledger call commits only when that call went through
    /// (`_pre_determined_ext_call`); otherwise nothing changes.  A non-final
    /// verdict accumulates its configured deltas; the final one averages the
    /// sums over the vote count; a rejection finalizes at once.
    pub fn vote(
        &mut self,
        _vote_id: u32,
        _result: AuditArbitrationResult,
        _pre_determined_ext_call: bool,
        caller: AccountId,
    ) -> (r: Result<(), Error>)
        requires
            old(self).wf(),
            _vote_id < old(self).polls().len(),
            may_accumulate(old(self).polls()[_vote_id as int], caller) && _result
                is MinorDiscrepancies ==> old(self).polls()[_vote_id as int].decided_deadline
                + old(self).time_extension_for_minor_discrepancies <= u64::MAX,
            may_accumulate(old(self).polls()[_vote_id as int], caller) && _result
                is ModerateDiscrepancies ==> old(self).polls()[_vote_id as int].decided_deadline
                + old(self).time_extension_for_moderate_discrepancies <= u64::MAX,
        ensures
            final(self).wf(),
            ({
                let p = old(self).polls()[_vote_id as int];
                &&& !p.is_active ==> r == Err::<(), Error>(Error::ResultAlreadyPublished) && *final(self)
                    == *old(self)
                &&& p.is_active && !in_roster(p.arbiters@, caller) ==> r == Err::<(), Error>(
                    Error::UnAuthorisedCall,
                ) && *final(self) == *old(self)
                &&& p.is_active ==> forall|idx: int|
                    #[trigger] first_voter_index(p.arbiters@, caller, idx) ==> vote_outcome(
                        *old(self),
                        *final(self),
                        _vote_id,
                        _result,
                        _pre_determined_ext_call,
                        caller,
                        idx,
                        r,
                    )
            }),
            forall|j: int|
                0 <= j < old(self).polls().len() && !(#[trigger] old(self).polls()[j]).is_active
                    ==> final(self).polls()[j] == old(self).polls()[j],
    {
        let vid = _vote_id as usize;
        if !self.vote_id_to_info[vid].is_active {
            return Err(Error::ResultAlreadyPublished);
        }
        let index = find_arbiter(&self.vote_id_to_info[vid].arbiters, caller);
        if index >= self.vote_id_to_info[vid].arbiters.len() {
            return Err(Error::UnAuthorisedCall);
        }
        if self.vote_id_to_info[vid].arbiters[index].has_voted {
            return Err(Error::VotingFailed);
        }
        proof {
            assert(first_voter_index(self.polls()[_vote_id as int].arbiters@, caller, index as int));
            assert(may_accumulate(self.polls()[_vote_id as int], caller));
        }
        let av = self.vote_id_to_info[vid].available_votes;
        let dd = self.vote_id_to_info[vid].decided_deadline;
        let dh = self.vote_id_to_info[vid].decided_haircut;
        let roster_len = self.vote_id_to_info[vid].arbiters.len();
        proof {
            lemma_count_voted_unvoted(
                self.polls()[_vote_id as int].arbiters@,
                index as int,
            );
            lemma_count_voted_update(
                self.polls()[_vote_id as int].arbiters@,
                index as int,
                (Arbiter {
                    voter_address: self.polls()[_vote_id as int].arbiters@[index as int].voter_address,
                    has_voted: true,
                }),
            );
        }
        let finalize_by_count = av as usize + 1 == roster_len;
        let av1_64: u64 = av as u64 + 1;
        let av1_128: Balance = av as Balance + 1;
        let (new_dd, new_dh): (Timestamp, Balance) = match _result {
            AuditArbitrationResult::NoDiscrepancies => {
                if finalize_by_count && dd > 0 {
                    (dd / av1_64, dh / av1_128)
                } else {
                    (dd, dh)
                }
            },
            AuditArbitrationResult::MinorDiscrepancies => {
                if finalize_by_count {
                    (
                        (dd + self.time_extension_for_minor_discrepancies) / av1_64,
                        (dh + self.haircut_for_minor_discreapancies) / av1_128,
                    )
                } else {
                    (
                        dd + self.time_extension_for_minor_discrepancies,
                        dh + self.haircut_for_minor_discreapancies,
                    )
                }
            },
            AuditArbitrationResult::ModerateDiscrepancies => {
                if finalize_by_count {
                    (
                        (dd + self.time_extension_for_moderate_discrepancies) / av1_64,
                        (dh + self.haircut_for_moderate_discrepancies) / av1_128,
                    )
                } else {
                    (
                        dd + self.time_extension_for_moderate_discrepancies,
                        dh + self.haircut_for_moderate_discrepancies,
                    )
                }
            },
            AuditArbitrationResult::Reject => (dd, dh),
        };
        let finalize = finalize_by_count || matches!(_result, AuditArbitrationResult::Reject);
        if finalize && !_pre_determined_ext_call {
            return Err(Error::AssessmentFailed);
        }
        proof {
            vstd::arithmetic::div_mod::lemma_div_nonincreasing(dh as int, av as int + 1);
            vstd::arithmetic::div_mod::lemma_div_nonincreasing(
                dh as int + self.haircut_for_minor_discreapancies as int,
                av as int + 1,
            );
            vstd::arithmetic::div_mod::lemma_div_nonincreasing(
                dh as int + self.haircut_for_moderate_discrepancies as int,
                av as int + 1,
            );
        }
        self.commit_vote(_vote_id, index, caller, _result, finalize, new_dd, new_dh);
        proof {
            assert forall|i: int| 0 <= i < self.polls().len() implies poll_wf(
                #[trigger] self.polls()[i],
            ) by {
                if i != _vote_id as int {
                    assert(self.polls()[i] == old(self).polls()[i]);
                    assert(poll_wf(old(self).polls()[i]));
                } else {
                    assert(poll_wf(old(self).polls()[i]));
                }
            }
        }
        Ok(())
    }
}

/// Copies a roster with every has-voted flag cleared.
fn unmarked_roster(v: &Vec<Arbiter>) -> (r: Vec<Arbiter>)
    ensures
        r@.len() == v@.len(),
        forall|i: int|
            0 <= i < v@.len() ==> #[trigger] r@[i] == (Arbiter {
                voter_address: v@[i].voter_address,
                has_voted: false,
            }),
{
    let mut r: Vec<Arbiter> = Vec::new();
    let mut i: usize = 0;
    while i < v.len()
        invariant
            i <= v.len(),
            r@.len() == i as int,
            forall|j: int|
                0 <= j < i ==> #[trigger] r@[j] == (Arbiter {
                    voter_address: v@[j].voter_address,
                    has_voted: false,
                }),
        decreases v.len() - i,
    {
        r.push(Arbiter { voter_address: v[i].voter_address, has_voted: false });
        i = i + 1;
    }
    r
}

/// Copies a roster.
fn clone_arbiters(v: &Vec<Arbiter>) -> (r: Vec<Arbiter>)
    ensures
        r@ == v@,
{
    let mut r: Vec<Arbiter> = Vec::new();
    let mut i: usize = 0;
    while i < v.len()
        invariant
            i <= v.len(),
            r@ == v@.take(i as int),
        decreases v.len() - i,
    {
        r.push(v[i]);
        proof {
            assert(r@ =~= v@.take(i as int + 1));
        }
        i = i + 1;
    }
    proof {
        assert(v@.take(v@.len() as int) =~= v@);
    }
    r
}

/// Position of `caller` in the roster: the first index with its address, or
/// the roster's length when it holds none.
fn find_arbiter(arbiters: &Vec<Arbiter>, caller: AccountId) -> (idx: usize)
    ensures
        idx <= arbiters@.len(),
        idx < arbiters@.len() ==> first_voter_index(arbiters@, caller, idx as int),
        idx == arbiters@.len() ==> !in_roster(arbiters@, caller),
{
    let mut i: usize = 0;
    while i < arbiters.len()
        invariant
            i <= arbiters@.len(),
            forall|j: int| 0 <= j < i ==> (#[trigger] arbiters@[j]).voter_address != caller,
        decreases arbiters@.len() - i,
    {
        if arbiters[i].voter_address == caller {
            return i;
        }
        i = i + 1;
    }
    i
}

} // verus!
