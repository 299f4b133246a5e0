//! The escrow ledger: audit records, their status state machine, caller
//! authorization and payout arithmetic.
//!
//! A patron opens an audit by locking value, assigns an auditor, the auditor
//! submits the report before the deadline, and the patron assesses it.  A
//! rejected report goes to the arbiter provider for validation, who can also
//! extend the deadline against a haircut.  Every movement of value out of
//! the ledger is recorded as a [`TokenOutgoing`] entry in the event log.
//!
//! Value transfers are performed by an external collaborator; each operation
//! that needs one takes the collaborator's reported outcome (`success`) and
//! commits no state when that transfer failed.  Caller identity and the
//! current time are resolved by the hosting environment and handed in as
//! arguments.

use vstd::prelude::*;

use crate::types::{AccountId, Balance, Timestamp};

verus! {

/// Largest value a record may lock: keeps every percentage product
/// `value * p` with `p <= 100` inside the balance type.
pub const BALANCE_CAP: Balance = Balance::MAX / 100;

/// Minimum margin, in milliseconds, by which an arbiter-driven deadline
/// extension must lie beyond the current time (one day).
pub const MIN_EXTENSION_MARGIN: Timestamp = 86400000;

/// Status of an audit record.  Exactly one variant holds at any time;
/// `AuditCompleted` and `AuditExpired` are terminal.
#[derive(Clone, Copy, Debug)]
pub enum AuditStatus {
    AuditCreated,
    AuditAssigned,
    AuditSubmitted,
    AuditAwaitingValidation,
    AuditCompleted,
    AuditExpired,
}

/// One audit record: the parties, the locked value, the deadline, the start
/// time and the current status.
#[derive(Clone, Copy, Debug)]
pub struct PaymentInfo {
    pub patron: AccountId,
    pub auditor: AccountId,
    pub value: Balance,
    pub arbiterprovider: AccountId,
    pub deadline: u64,
    pub starttime: u64,
    pub currentstatus: AuditStatus,
}

/// Errors of the escrow ledger.
#[derive(Clone, Copy, Debug)]
pub enum Error {
    UnAuthorisedCall,
    InsufficientBalance,
    InvalidArgument,
    SubmissionFailed,
    TransferFromContractFailed,
    ArbitersExtendDeadlineConditionsNotMet,
    WrongState,
    DeadlinePassed,
}

/// A pending request by the auditor for more time: the haircut percentage
/// offered on the locked value and the proposed new deadline.
#[derive(Clone, Copy, Debug)]
pub struct IncreaseRequest {
    pub haircut_percentage: Balance,
    pub new_deadline: u64,
}

/// Event: an audit was assigned to an auditor.
#[derive(Clone, Copy, Debug)]
pub struct AuditIdAssigned {
    pub id: Option<u32>,
    pub payment_info: Option<PaymentInfo>,
}

/// Event: an audit was created.
#[derive(Clone, Copy, Debug)]
pub struct AuditCreated {
    pub id: u32,
    pub payment_info: Option<PaymentInfo>,
    pub salt: u64,
}

/// Event: the record of an audit was updated.
#[derive(Clone, Copy, Debug)]
pub struct AuditInfoUpdated {
    pub id: Option<u32>,
    pub payment_info: Option<PaymentInfo>,
    pub updated_by: Option<AccountId>,
}

/// Event: the auditor asked for more time against a haircut.
#[derive(Clone, Copy, Debug)]
pub struct DeadlineExtendRequest {
    pub id: u32,
    pub newtime: u64,
    pub haircut: Balance,
}

/// Event: the audit report was submitted under a reference hash.
#[derive(Debug)]
pub struct AuditSubmitted {
    pub id: u32,
    pub ipfs_hash: String,
}

/// Event: the patron rejected the report and asks for arbitration.
#[derive(Clone, Copy, Debug)]
pub struct AuditRequestsArbitration {
    pub id: u32,
}

/// Event: value was locked into the ledger for an audit.
#[derive(Clone, Copy, Debug)]
pub struct TokenIncoming {
    pub id: u32,
}

/// Event: value left the ledger, as a haircut, a completion payout or a
/// refund after expiry.
#[derive(Clone, Copy, Debug)]
pub struct TokenOutgoing {
    pub id: u32,
    pub receiver: AccountId,
    pub amount: Balance,
}

/// Event: an audit id was given back to its patron.
#[derive(Clone, Copy, Debug)]
pub struct AuditIdRetrieved {
    pub id: u32,
}

/// One entry of the ledger's event log.
#[derive(Debug)]
pub enum EscrowEvent {
    TokenIncoming(TokenIncoming),
    TokenOutgoing(TokenOutgoing),
    AuditCreated(AuditCreated),
    AuditIdAssigned(AuditIdAssigned),
    AuditInfoUpdated(AuditInfoUpdated),
    DeadlineExtendRequest(DeadlineExtendRequest),
    AuditSubmitted(AuditSubmitted),
    AuditRequestsArbitration(AuditRequestsArbitration),
    AuditIdRetrieved(AuditIdRetrieved),
}

/// Whether a status is terminal: no operation moves a record out of it.
pub open spec fn is_terminal(s: AuditStatus) -> bool {
    s is AuditCompleted || s is AuditExpired
}

/// Value still owed by the ledger for a record: the locked value while the
/// audit is live, nothing once it is terminal.
pub open spec fn locked_value(r: PaymentInfo) -> int {
    if is_terminal(r.currentstatus) {
        0
    } else {
        r.value as int
    }
}

/// The escrow ledger.  Audit ids are assigned sequentially, so the keyed
/// storage of the records is an arena indexed by the audit id.
pub struct Escrow {
    pub current_audit_id: u32,
    pub stablecoin_address: AccountId,
    pub audit_id_to_payment_info: Vec<PaymentInfo>,
    pub audit_id_to_time_increase_request: Vec<Option<IncreaseRequest>>,
    pub audit_id_to_ipfs_hash: Vec<Option<String>>,
    pub events: Vec<EscrowEvent>,
    /// Per audit: the locked value recorded at the last successful
    /// `create_new_payment`, `assign_audit` or `approve_additional_time`.
    pub value_baseline: Ghost<Seq<int>>,
    /// Per audit: the total value paid out since that point.
    pub value_disbursed: Ghost<Seq<int>>,
}

impl Escrow {
    /// The stored audit records, by audit id.
    pub open spec fn records(self) -> Seq<PaymentInfo> {
        self.audit_id_to_payment_info@
    }

    /// Number of audits ever opened.
    pub open spec fn n(self) -> int {
        self.records().len() as int
    }

    /// Well-formedness of the ledger: the arena vectors and the payout
    /// accounting run in step with the id counter, and every locked value is
    /// small enough for percentage arithmetic.
    pub open spec fn wf(self) -> bool {
        &&& self.current_audit_id as int == self.n()
        &&& self.audit_id_to_time_increase_request@.len() == self.n()
        &&& self.audit_id_to_ipfs_hash@.len() == self.n()
        &&& self.value_baseline@.len() == self.n()
        &&& self.value_disbursed@.len() == self.n()
        &&& forall|i: int|
            0 <= i < self.n() ==> (#[trigger] self.records()[i]).value <= BALANCE_CAP
    }

    /// Law: payouts never outrun the escrowed value.  For every audit, the
    /// value disbursed since the last value-setting mutation
    /// (`create_new_payment`, `assign_audit` or `approve_additional_time`),
    /// plus the value still locked, never exceeds the value that mutation
    /// recorded.  Every operation preserves this.
    pub open spec fn conserves(self) -> bool {
        &&& forall|i: int|
            0 <= i < self.n() ==> 0 <= #[trigger] self.value_disbursed@[i]
        &&& forall|i: int|
            0 <= i < self.n()
                ==> #[trigger] self.value_disbursed@[i] + locked_value(self.records()[i])
                <= self.value_baseline@[i]
    }

    /// Creates an empty ledger that settles transfers through the given
    /// stablecoin.
    pub fn new(_stablecoin_address: AccountId) -> (e: Escrow)
        ensures
            e.wf(),
            e.conserves(),
            e.current_audit_id == 0,
            e.stablecoin_address == _stablecoin_address,
            e.records() == Seq::<PaymentInfo>::empty(),
            e.events@ == Seq::<EscrowEvent>::empty(),
    {
        Escrow {
            current_audit_id: 0,
            stablecoin_address: _stablecoin_address,
            audit_id_to_payment_info: Vec::new(),
            audit_id_to_time_increase_request: Vec::new(),
            audit_id_to_ipfs_hash: Vec::new(),
            events: Vec::new(),
            value_baseline: Ghost(Seq::empty()),
            value_disbursed: Ghost(Seq::empty()),
        }
    }

    /// The next audit id to be assigned, equal to the number of audits
    /// opened so far.
    pub fn get_current_audit_id(&self) -> (id: u32)
        ensures
            id == self.current_audit_id,
    {
        self.current_audit_id
    }

    /// The stablecoin the ledger settles through.
    pub fn know_your_stablecoin(&self) -> (a: AccountId)
        ensures
            a == self.stablecoin_address,
    {
        self.stablecoin_address
    }

    /// The record of an audit id, if one was ever opened under it.
    pub fn get_paymentinfo(&self, id: u32) -> (r: Option<PaymentInfo>)
        ensures
            id < self.n() ==> r == Some(self.records()[id as int]),
            id >= self.n() ==> r is None,
    {
        if (id as usize) < self.audit_id_to_payment_info.len() {
            Some(self.audit_id_to_payment_info[id as usize])
        } else {
            None
        }
    }

    /// The pending time-increase request of an audit id, if any.
    pub fn query_timeincreaserequest(&self, id: u32) -> (r: Option<IncreaseRequest>)
        ensures
            id < self.audit_id_to_time_increase_request@.len()
                ==> r == self.audit_id_to_time_increase_request@[id as int],
            id >= self.audit_id_to_time_increase_request@.len() ==> r is None,
    {
        if (id as usize) < self.audit_id_to_time_increase_request.len() {
            self.audit_id_to_time_increase_request[id as usize]
        } else {
            None
        }
    }

    /// Opens a new audit.  The caller becomes the patron (and, until
    /// assignment, the placeholder auditor), locking `_value` against the
    /// given arbiter provider; `_deadline` is the time budget granted once
    /// an auditor is assigned.  Fails on a zero value, and when the deposit
    /// transfer (`success`) did not go through; on failure nothing changes.
    pub fn create_new_payment(
        &mut self,
        _value: Balance,
        _arbiter_provider: AccountId,
        _deadline: u64,
        _salt: u64,
        success: bool,
        caller: AccountId,
        now: Timestamp,
    ) -> (r: Result<(), Error>)
        requires
            old(self).wf(),
            _value <= BALANCE_CAP,
            old(self).current_audit_id < u32::MAX,
        ensures
            final(self).wf(),
            old(self).conserves() ==> final(self).conserves(),
            _value == 0 ==> r == Err::<(), Error>(Error::InvalidArgument) && *final(self) == *old(self),
            _value > 0 && !success ==> r == Err::<(), Error>(Error::InsufficientBalance)
                && *final(self) == *old(self),
            _value > 0 && success ==> {
                &&& r is Ok
                &&& final(self).records() == old(self).records().push(
                    (PaymentInfo {
                        patron: caller,
                        auditor: caller,
                        value: _value,
                        arbiterprovider: _arbiter_provider,
                        deadline: _deadline,
                        starttime: now,
                        currentstatus: AuditStatus::AuditCreated,
                    }),
                )
                &&& final(self).audit_id_to_time_increase_request@
                    == old(self).audit_id_to_time_increase_request@.push(None::<IncreaseRequest>)
                &&& final(self).audit_id_to_ipfs_hash@
                    == old(self).audit_id_to_ipfs_hash@.push(None::<String>)
                &&& final(self).current_audit_id == old(self).current_audit_id + 1
                &&& final(self).stablecoin_address == old(self).stablecoin_address
                &&& final(self).value_baseline@ == old(self).value_baseline@.push(_value as int)
                &&& final(self).value_disbursed@ == old(self).value_disbursed@.push(0)
                &&& final(self).events@ == old(self).events@ + seq![
                    EscrowEvent::TokenIncoming((TokenIncoming { id: old(self).current_audit_id })),
                    EscrowEvent::AuditCreated(
                        (AuditCreated {
                            id: old(self).current_audit_id,
                            payment_info: Some(final(self).records().last()),
                            salt: _salt,
                        }),
                    ),
                ]
            },
    {
        let x = PaymentInfo {
            value: _value,
            starttime: now,
            auditor: caller,
            arbiterprovider: _arbiter_provider,
            patron: caller,
            deadline: _deadline,
            currentstatus: AuditStatus::AuditCreated,
        };
        if _value == 0 {
            return Err(Error::InvalidArgument);
        }
        if success {
            self.events.push(EscrowEvent::TokenIncoming(TokenIncoming {
                id: self.current_audit_id,
            }));
            self.audit_id_to_payment_info.push(x);
            self.events.push(EscrowEvent::AuditCreated(AuditCreated {
                id: self.current_audit_id,
                payment_info: Some(x),
                salt: _salt,
            }));
            self.audit_id_to_time_increase_request.push(None);
            self.audit_id_to_ipfs_hash.push(None);
            self.value_baseline = Ghost(self.value_baseline@.push(_value as int));
            self.value_disbursed = Ghost(self.value_disbursed@.push(0));
            self.current_audit_id = self.current_audit_id + 1;
            Ok(())
        } else {
            Err(Error::InsufficientBalance)
        }
    }
    /// Assigns an auditor to a created audit.  Only the record's patron may
    /// call, and only while the status is `AuditCreated`; the deadline
    /// becomes `now` plus the (kept or renewed) time budget, and a changed
    /// value is settled with the patron through the transfer collaborator.
    /// On every failure nothing changes.
    pub fn assign_audit(
        &mut self,
        _id: u32,
        _auditor: AccountId,
        _new_value: Balance,
        _new_deadline: u64,
        success: bool,
        caller: AccountId,
        now: Timestamp,
    ) -> (r: Result<(), Error>)
        requires
            old(self).wf(),
            _id < old(self).n(),
            assign_authorized(old(self).records()[_id as int], caller) ==> _new_value
                <= BALANCE_CAP,
            assign_authorized(old(self).records()[_id as int], caller) ==> {
                let pi = old(self).records()[_id as int];
                if pi.value == _new_value && pi.deadline == _new_deadline {
                    pi.deadline + now <= u64::MAX
                } else {
                    _new_deadline + now <= u64::MAX
                }
            },
        ensures
            final(self).wf(),
            old(self).conserves() ==> final(self).conserves(),
            ({
                let pi = old(self).records()[_id as int];
                &&& !assign_authorized(pi, caller) ==> r == Err::<(), Error>(
                    Error::UnAuthorisedCall,
                ) && *final(self) == *old(self)
                &&& assign_authorized(pi, caller) && pi.value == _new_value ==> r is Ok
                    && assign_committed(
                    *old(self),
                    *final(self),
                    _id,
                    assigned_record(
                        pi,
                        _auditor,
                        pi.value,
                        if pi.deadline == _new_deadline {
                            (pi.deadline + now) as u64
                        } else {
                            (_new_deadline + now) as u64
                        },
                        now,
                    ),
                )
                &&& assign_authorized(pi, caller) && pi.value != _new_value && success ==> r is Ok
                    && assign_committed(
                    *old(self),
                    *final(self),
                    _id,
                    assigned_record(pi, _auditor, _new_value, (_new_deadline + now) as u64, now),
                )
                &&& assign_authorized(pi, caller) && pi.value != _new_value && !success
                    ==> *final(self) == *old(self) && r == Err::<(), Error>(
                    if _new_value > pi.value {
                        Error::InsufficientBalance
                    } else {
                        Error::TransferFromContractFailed
                    },
                )
            }),
    {
        let mut payment_info = self.audit_id_to_payment_info[_id as usize];
        if payment_info.patron == caller && matches!(
            payment_info.currentstatus,
            AuditStatus::AuditCreated,
        ) {
            if payment_info.value == _new_value && payment_info.deadline == _new_deadline {
                payment_info.auditor = _auditor;
                payment_info.starttime = now;
                payment_info.deadline = payment_info.deadline + now;
                payment_info.currentstatus = AuditStatus::AuditAssigned;
                self.commit_assignment(_id, payment_info);
                Ok(())
            } else if payment_info.value == _new_value {
                payment_info.auditor = _auditor;
                payment_info.starttime = now;
                payment_info.deadline = _new_deadline + now;
                payment_info.currentstatus = AuditStatus::AuditAssigned;
                self.commit_assignment(_id, payment_info);
                Ok(())
            } else if _new_value > payment_info.value {
                // The extra value is pulled from the patron by the transfer
                // collaborator; `success` reports its outcome.
                if success {
                    payment_info.auditor = _auditor;
                    payment_info.starttime = now;
                    payment_info.value = _new_value;
                    payment_info.deadline = _new_deadline + now;
                    payment_info.currentstatus = AuditStatus::AuditAssigned;
                    self.commit_assignment(_id, payment_info);
                    Ok(())
                } else {
                    Err(Error::InsufficientBalance)
                }
            } else {
                // The value difference is returned to the patron.
                if success {
                    payment_info.auditor = _auditor;
                    payment_info.starttime = now;
                    payment_info.value = _new_value;
                    payment_info.deadline = _new_deadline + now;
                    payment_info.currentstatus = AuditStatus::AuditAssigned;
                    self.commit_assignment(_id, payment_info);
                    Ok(())
                } else {
                    Err(Error::TransferFromContractFailed)
                }
            }
        } else {
            Err(Error::UnAuthorisedCall)
        }
    }

    /// Files (or overwrites) the auditor's request for more time: the
    /// proposed new deadline and the haircut percentage offered for the
    /// delay.  Only the record's current auditor may call; anyone else is
    /// turned away and nothing changes.
    pub fn request_additional_time(
        &mut self,
        _id: u32,
        _time: u64,
        _haircut_percentage: Balance,
        caller: AccountId,
    ) -> (r: Result<(), Error>)
        requires
            old(self).wf(),
            _id < old(self).n(),
        ensures
            final(self).wf(),
            old(self).conserves() ==> final(self).conserves(),
            caller != old(self).records()[_id as int].auditor ==> r == Err::<(), Error>(
                Error::UnAuthorisedCall,
            ) && *final(self) == *old(self),
            caller == old(self).records()[_id as int].auditor ==> {
                &&& r is Ok
                &&& final(self).audit_id_to_time_increase_request@
                    == old(self).audit_id_to_time_increase_request@.update(
                    _id as int,
                    Some(
                        (IncreaseRequest {
                            haircut_percentage: _haircut_percentage,
                            new_deadline: _time,
                        }),
                    ),
                )
                &&& final(self).events@ == old(self).events@.push(
                    EscrowEvent::DeadlineExtendRequest(
                        (DeadlineExtendRequest {
                            id: _id,
                            newtime: _time,
                            haircut: _haircut_percentage,
                        }),
                    ),
                )
                &&& final(self).audit_id_to_payment_info@ == old(self).audit_id_to_payment_info@
                &&& final(self).audit_id_to_ipfs_hash@ == old(self).audit_id_to_ipfs_hash@
                &&& final(self).current_audit_id == old(self).current_audit_id
                &&& final(self).stablecoin_address == old(self).stablecoin_address
                &&& final(self).value_baseline == old(self).value_baseline
                &&& final(self).value_disbursed == old(self).value_disbursed
            },
    {
        if self.audit_id_to_payment_info[_id as usize].auditor == caller {
            let x = IncreaseRequest { haircut_percentage: _haircut_percentage, new_deadline: _time };
            self.audit_id_to_time_increase_request[_id as usize] = Some(x);
            self.events.push(EscrowEvent::DeadlineExtendRequest(DeadlineExtendRequest {
                id: _id,
                newtime: _time,
                haircut: _haircut_percentage,
            }));
            Ok(())
        } else {
            Err(Error::UnAuthorisedCall)
        }
    }

    /// Approves the pending time-increase request of an audit.  Only the
    /// record's patron may call, the stored haircut must be below 100, and
    /// the haircut payout to the patron must have gone through (`success`);
    /// then the locked value shrinks to its `(100 - haircut)` percent share,
    /// the deadline becomes the proposed one, and the status is left as it
    /// was.  On every failure nothing changes.
    pub fn approve_additional_time(&mut self, _id: u32, success: bool, caller: AccountId) -> (r:
        Result<(), Error>)
        requires
            old(self).wf(),
            _id < old(self).n(),
            caller == old(self).records()[_id as int].patron
                ==> old(self).audit_id_to_time_increase_request@[_id as int] is Some,
        ensures
            final(self).wf(),
            old(self).conserves() ==> final(self).conserves(),
            caller != old(self).records()[_id as int].patron ==> r == Err::<(), Error>(
                Error::UnAuthorisedCall,
            ) && *final(self) == *old(self),
            caller == old(self).records()[_id as int].patron ==> ({
                let pi = old(self).records()[_id as int];
                let req = old(self).audit_id_to_time_increase_request@[_id as int]->Some_0;
                let h = req.haircut_percentage;
                let cut = pi.value as int * h as int / 100;
                let kept = pi.value as int * (100 - h as int) / 100;
                &&& h >= 100 ==> r == Err::<(), Error>(Error::InvalidArgument) && *final(self)
                    == *old(self)
                &&& h < 100 && !success ==> r == Err::<(), Error>(Error::TransferFromContractFailed)
                    && *final(self) == *old(self)
                &&& h < 100 && success ==> ({
                    let newpi = (PaymentInfo {
                        value: kept as Balance,
                        deadline: req.new_deadline,
                        ..pi
                    });
                    &&& r is Ok
                    &&& final(self).audit_id_to_payment_info@
                        == old(self).audit_id_to_payment_info@.update(_id as int, newpi)
                    &&& final(self).events@ == old(self).events@ + seq![
                        EscrowEvent::TokenOutgoing(
                            (TokenOutgoing {
                                id: _id,
                                receiver: pi.patron,
                                amount: cut as Balance,
                            }),
                        ),
                        EscrowEvent::AuditInfoUpdated(
                            (AuditInfoUpdated {
                                id: Some(_id),
                                payment_info: Some(newpi),
                                updated_by: Some(pi.patron),
                            }),
                        ),
                    ]
                    &&& final(self).audit_id_to_time_increase_request@
                        == old(self).audit_id_to_time_increase_request@
                    &&& final(self).audit_id_to_ipfs_hash@ == old(self).audit_id_to_ipfs_hash@
                    &&& final(self).current_audit_id == old(self).current_audit_id
                    &&& final(self).stablecoin_address == old(self).stablecoin_address
                    &&& final(self).value_baseline@ == old(self).value_baseline@.update(
                        _id as int,
                        kept,
                    )
                    &&& final(self).value_disbursed@ == old(self).value_disbursed@.update(
                        _id as int,
                        0,
                    )
                })
            }),
    {
        if self.audit_id_to_payment_info[_id as usize].patron == caller {
            let req = self.audit_id_to_time_increase_request[_id as usize].unwrap();
            let haircut = req.haircut_percentage;
            if haircut < 100 {
                let new_deadline = req.new_deadline;
                let mut payment_info = self.audit_id_to_payment_info[_id as usize];
                proof {
                    lemma_percent_product_fits(payment_info.value as int, haircut as int);
                    lemma_percent_product_fits(payment_info.value as int, 100 - haircut as int);
                    lemma_percent_split_within_value(
                        payment_info.value as int,
                        haircut as int,
                        100 - haircut as int,
                    );
                }
                let value0 = payment_info.value * haircut / 100;
                if success {
                    self.events.push(EscrowEvent::TokenOutgoing(TokenOutgoing {
                        id: _id,
                        receiver: payment_info.patron,
                        amount: value0,
                    }));
                    payment_info.value = payment_info.value * (100 - haircut) / 100;
                    payment_info.deadline = new_deadline;
                    self.audit_id_to_payment_info[_id as usize] = payment_info;
                    self.events.push(EscrowEvent::AuditInfoUpdated(AuditInfoUpdated {
                        id: Some(_id),
                        payment_info: Some(payment_info),
                        updated_by: Some(payment_info.patron),
                    }));
                    self.value_baseline = Ghost(
                        self.value_baseline@.update(_id as int, payment_info.value as int),
                    );
                    self.value_disbursed = Ghost(self.value_disbursed@.update(_id as int, 0));
                    Ok(())
                } else {
                    Err(Error::TransferFromContractFailed)
                }
            } else {
                Err(Error::InvalidArgument)
            }
        } else {
            Err(Error::UnAuthorisedCall)
        }
    }

    /// Records the submitted audit report.  Succeeds exactly when the
    /// caller is the assigned auditor, the status is `AuditAssigned` and the
    /// deadline has not passed; then the reference hash is stored and the
    /// status moves to `AuditSubmitted`.  On every failure nothing changes.
    pub fn mark_submitted(&mut self, _id: u32, _ipfs_hash: String, caller: AccountId, now:
        Timestamp) -> (r: Result<(), Error>)
        requires
            old(self).wf(),
            _id < old(self).n(),
        ensures
            final(self).wf(),
            old(self).conserves() ==> final(self).conserves(),
            ({
                let pi = old(self).records()[_id as int];
                &&& r is Ok <==> caller == pi.auditor && pi.currentstatus is AuditAssigned
                    && pi.deadline > now
                &&& caller != pi.auditor ==> r == Err::<(), Error>(Error::UnAuthorisedCall)
                &&& caller == pi.auditor && !(pi.currentstatus is AuditAssigned) ==> r == Err::<
                    (),
                    Error,
                >(Error::WrongState)
                &&& caller == pi.auditor && pi.currentstatus is AuditAssigned && pi.deadline <= now
                    ==> r == Err::<(), Error>(Error::DeadlinePassed)
                &&& r is Err ==> *final(self) == *old(self)
                &&& r is Ok ==> {
                    &&& final(self).audit_id_to_payment_info@
                        == old(self).audit_id_to_payment_info@.update(
                        _id as int,
                        (PaymentInfo { currentstatus: AuditStatus::AuditSubmitted, ..pi }),
                    )
                    &&& final(self).audit_id_to_ipfs_hash@
                        == old(self).audit_id_to_ipfs_hash@.update(_id as int, Some(_ipfs_hash))
                    &&& final(self).events@ == old(self).events@.push(
                        EscrowEvent::AuditSubmitted(
                            (AuditSubmitted { id: _id, ipfs_hash: _ipfs_hash }),
                        ),
                    )
                    &&& final(self).audit_id_to_time_increase_request@
                        == old(self).audit_id_to_time_increase_request@
                    &&& final(self).current_audit_id == old(self).current_audit_id
                    &&& final(self).stablecoin_address == old(self).stablecoin_address
                    &&& final(self).value_baseline == old(self).value_baseline
                    &&& final(self).value_disbursed == old(self).value_disbursed
                }
            }),
    {
        let mut payment_info = self.audit_id_to_payment_info[_id as usize];
        if payment_info.auditor == caller {
            if matches!(payment_info.currentstatus, AuditStatus::AuditAssigned) {
                if payment_info.deadline > now {
                    self.audit_id_to_ipfs_hash[_id as usize] = Some(_ipfs_hash.clone());
                    payment_info.currentstatus = AuditStatus::AuditSubmitted;
                    self.audit_id_to_payment_info[_id as usize] = payment_info;
                    self.events.push(EscrowEvent::AuditSubmitted(AuditSubmitted {
                        id: _id,
                        ipfs_hash: _ipfs_hash,
                    }));
                    Ok(())
                } else {
                    Err(Error::DeadlinePassed)
                }
            } else {
                Err(Error::WrongState)
            }
        } else {
            Err(Error::UnAuthorisedCall)
        }
    }

    /// Assesses a submitted or disputed audit.  A patron assessing a
    /// submitted report either completes the audit, paying the auditor 98%
    /// and the arbiter provider 2% of the locked value, or opens a dispute.
    /// The arbiter provider assessing a disputed report either completes it,
    /// paying the auditor 95% and itself 5%, or expires it, paying the
    /// patron 95% and itself 5%.  Payouts use truncating division; when a
    /// required transfer failed (`success`) nothing changes.
    pub fn assess_audit(&mut self, _id: u32, answer: bool, success: bool, caller: AccountId) -> (r:
        Result<(), Error>)
        requires
            old(self).wf(),
            _id < old(self).n(),
        ensures
            final(self).wf(),
            old(self).conserves() ==> final(self).conserves(),
            assess_transition(*old(self), *final(self), _id, answer, success, caller, r),
            r == assess_result(*old(self), _id, answer, success, caller),
    {
        let mut payment_info = self.audit_id_to_payment_info[_id as usize];
        proof {
            lemma_percent_product_fits(payment_info.value as int, 98);
            lemma_percent_product_fits(payment_info.value as int, 95);
            lemma_percent_split_within_value(payment_info.value as int, 98, 2);
            lemma_percent_split_within_value(payment_info.value as int, 95, 5);
        }
        if caller == payment_info.patron && matches!(
            payment_info.currentstatus,
            AuditStatus::AuditSubmitted,
        ) {
            if answer {
                if success {
                    let to_auditor = payment_info.value * 98 / 100;
                    let to_provider = payment_info.value * 2 / 100;
                    self.events.push(EscrowEvent::TokenOutgoing(TokenOutgoing {
                        id: _id,
                        receiver: payment_info.auditor,
                        amount: to_auditor,
                    }));
                    self.events.push(EscrowEvent::TokenOutgoing(TokenOutgoing {
                        id: _id,
                        receiver: payment_info.arbiterprovider,
                        amount: to_provider,
                    }));
                    payment_info.currentstatus = AuditStatus::AuditCompleted;
                    self.audit_id_to_payment_info[_id as usize] = payment_info;
                    self.value_disbursed = Ghost(
                        self.value_disbursed@.update(
                            _id as int,
                            self.value_disbursed@[_id as int] + to_auditor + to_provider,
                        ),
                    );
                    proof {
                        assert(self.events@ =~= old(self).events@ + seq![
                            EscrowEvent::TokenOutgoing(
                                (TokenOutgoing {
                                    id: _id,
                                    receiver: payment_info.auditor,
                                    amount: to_auditor,
                                }),
                            ),
                            EscrowEvent::TokenOutgoing(
                                (TokenOutgoing {
                                    id: _id,
                                    receiver: payment_info.arbiterprovider,
                                    amount: to_provider,
                                }),
                            ),
                        ]);
                    }
                    Ok(())
                } else {
                    Err(Error::TransferFromContractFailed)
                }
            } else {
                payment_info.currentstatus = AuditStatus::AuditAwaitingValidation;
                self.audit_id_to_payment_info[_id as usize] = payment_info;
                self.events.push(EscrowEvent::AuditRequestsArbitration(AuditRequestsArbitration {
                    id: _id,
                }));
                proof {
                    assert(self.events@ =~= old(self).events@ + seq![
                        EscrowEvent::AuditRequestsArbitration(
                            (AuditRequestsArbitration { id: _id }),
                        ),
                    ]);
                }
                Ok(())
            }
        } else if caller == payment_info.arbiterprovider && matches!(
            payment_info.currentstatus,
            AuditStatus::AuditAwaitingValidation,
        ) {
            if !success {
                return Err(Error::TransferFromContractFailed);
            }
            let to_main = payment_info.value * 95 / 100;
            let to_provider = payment_info.value * 5 / 100;
            if answer {
                self.events.push(EscrowEvent::TokenOutgoing(TokenOutgoing {
                    id: _id,
                    receiver: payment_info.auditor,
                    amount: to_main,
                }));
                self.events.push(EscrowEvent::TokenOutgoing(TokenOutgoing {
                    id: _id,
                    receiver: payment_info.arbiterprovider,
                    amount: to_provider,
                }));
                payment_info.currentstatus = AuditStatus::AuditCompleted;
                self.audit_id_to_payment_info[_id as usize] = payment_info;
                proof {
                    assert(self.events@ =~= old(self).events@ + seq![
                        EscrowEvent::TokenOutgoing(
                            (TokenOutgoing {
                                id: _id,
                                receiver: payment_info.auditor,
                                amount: to_main,
                            }),
                        ),
                        EscrowEvent::TokenOutgoing(
                            (TokenOutgoing {
                                id: _id,
                                receiver: payment_info.arbiterprovider,
                                amount: to_provider,
                            }),
                        ),
                    ]);
                }
            } else {
                payment_info.currentstatus = AuditStatus::AuditExpired;
                self.events.push(EscrowEvent::TokenOutgoing(TokenOutgoing {
                    id: _id,
                    receiver: payment_info.patron,
                    amount: to_main,
                }));
                self.events.push(EscrowEvent::TokenOutgoing(TokenOutgoing {
                    id: _id,
                    receiver: payment_info.arbiterprovider,
                    amount: to_provider,
                }));
                self.events.push(EscrowEvent::AuditInfoUpdated(AuditInfoUpdated {
                    id: Some(_id),
                    payment_info: Some(payment_info),
                    updated_by: Some(caller),
                }));
                self.audit_id_to_payment_info[_id as usize] = payment_info;
                proof {
                    assert(self.events@ =~= old(self).events@ + seq![
                        EscrowEvent::TokenOutgoing(
                            (TokenOutgoing {
                                id: _id,
                                receiver: payment_info.patron,
                                amount: to_main,
                            }),
                        ),
                        EscrowEvent::TokenOutgoing(
                            (TokenOutgoing {
                                id: _id,
                                receiver: payment_info.arbiterprovider,
                                amount: to_provider,
                            }),
                        ),
                        EscrowEvent::AuditInfoUpdated(
                            (AuditInfoUpdated {
                                id: Some(_id),
                                payment_info: Some(payment_info),
                                updated_by: Some(caller),
                            }),
                        ),
                    ]);
                }
            }
            self.value_disbursed = Ghost(
                self.value_disbursed@.update(
                    _id as int,
                    self.value_disbursed@[_id as int] + to_main + to_provider,
                ),
            );
            Ok(())
        } else {
            Err(Error::UnAuthorisedCall)
        }
    }

    /// Extends the deadline of a disputed audit on the arbiters' behalf.
    /// Only the arbiter provider may call, only while the status is
    /// `AuditAwaitingValidation`, with a haircut of at most 90, an arbiter
    /// share of at most 10, and a new deadline at least one day beyond now.
    /// The share goes to the provider, the haircut to the patron, and the
    /// locked value shrinks to the remaining percentage.  Any violated
    /// condition, a failed transfer included, changes nothing.
    pub fn arbiters_extend_deadline(
        &mut self,
        _id: u32,
        new_deadline: u64,
        haircut: Balance,
        arbitersshare: Balance,
        success: bool,
        caller: AccountId,
        now: Timestamp,
    ) -> (r: Result<(), Error>)
        requires
            old(self).wf(),
            _id < old(self).n(),
            now + MIN_EXTENSION_MARGIN <= u64::MAX,
        ensures
            final(self).wf(),
            old(self).conserves() ==> final(self).conserves(),
            extend_transition(
                *old(self),
                *final(self),
                _id,
                new_deadline,
                haircut,
                arbitersshare,
                success,
                caller,
                now,
                r,
            ),
            r == extend_result(*old(self), _id, new_deadline, haircut, arbitersshare, success, caller, now),
    {
        let mut payment_info = self.audit_id_to_payment_info[_id as usize];
        if haircut <= 90 && new_deadline > now + MIN_EXTENSION_MARGIN && caller
            == payment_info.arbiterprovider && arbitersshare <= 10 && matches!(
            payment_info.currentstatus,
            AuditStatus::AuditAwaitingValidation,
        ) {
            if success {
                proof {
                    lemma_percent_product_fits(payment_info.value as int, arbitersshare as int);
                    lemma_percent_product_fits(payment_info.value as int, haircut as int);
                    lemma_percent_product_fits(
                        payment_info.value as int,
                        100 - (arbitersshare as int + haircut as int),
                    );
                    lemma_percent_split_within_value(
                        payment_info.value as int,
                        arbitersshare as int,
                        haircut as int,
                    );
                }
                let arbiterscut: Balance = payment_info.value * arbitersshare / 100;
                let haircutvalue: Balance = payment_info.value * haircut / 100;
                payment_info.value = payment_info.value * (100 - (arbitersshare + haircut)) / 100;
                payment_info.deadline = new_deadline;
                self.events.push(EscrowEvent::TokenOutgoing(TokenOutgoing {
                    id: _id,
                    receiver: payment_info.arbiterprovider,
                    amount: arbiterscut,
                }));
                self.events.push(EscrowEvent::TokenOutgoing(TokenOutgoing {
                    id: _id,
                    receiver: payment_info.patron,
                    amount: haircutvalue,
                }));
                self.audit_id_to_payment_info[_id as usize] = payment_info;
                self.events.push(EscrowEvent::AuditInfoUpdated(AuditInfoUpdated {
                    id: Some(_id),
                    payment_info: Some(payment_info),
                    updated_by: Some(payment_info.patron),
                }));
                self.value_disbursed = Ghost(
                    self.value_disbursed@.update(
                        _id as int,
                        self.value_disbursed@[_id as int] + arbiterscut + haircutvalue,
                    ),
                );
                proof {
                    assert(self.events@ =~= old(self).events@ + seq![
                        EscrowEvent::TokenOutgoing(
                            (TokenOutgoing {
                                id: _id,
                                receiver: payment_info.arbiterprovider,
                                amount: arbiterscut,
                            }),
                        ),
                        EscrowEvent::TokenOutgoing(
                            (TokenOutgoing {
                                id: _id,
                                receiver: payment_info.patron,
                                amount: haircutvalue,
                            }),
                        ),
                        EscrowEvent::AuditInfoUpdated(
                            (AuditInfoUpdated {
                                id: Some(_id),
                                payment_info: Some(payment_info),
                                updated_by: Some(payment_info.patron),
                            }),
                        ),
                    ]);
                }
                Ok(())
            } else {
                Err(Error::ArbitersExtendDeadlineConditionsNotMet)
            }
        } else {
            Err(Error::ArbitersExtendDeadlineConditionsNotMet)
        }
    }

    /// Expires an audit and refunds its full remaining value to the patron.
    /// Only the patron may call, and only on a live audit that was never
    /// assigned or whose deadline has passed; a settled (completed or
    /// expired) audit stays settled.  A failed refund transfer, like any
    /// other violated condition, changes nothing.
    pub fn expire_audit(&mut self, _id: u32, success: bool, caller: AccountId, now: Timestamp) -> (r:
        Result<(), Error>)
        requires
            old(self).wf(),
            _id < old(self).n(),
        ensures
            final(self).wf(),
            old(self).conserves() ==> final(self).conserves(),
            ({
                let pi = old(self).records()[_id as int];
                let newpi = (PaymentInfo { currentstatus: AuditStatus::AuditExpired, ..pi });
                &&& !(expire_allowed(pi, caller, now) && success) ==> r == Err::<(), Error>(
                    Error::UnAuthorisedCall,
                ) && *final(self) == *old(self)
                &&& expire_allowed(pi, caller, now) && success ==> r is Ok && payouts_committed(
                    *old(self),
                    *final(self),
                    _id,
                    newpi,
                    seq![
                        EscrowEvent::TokenOutgoing(
                            (TokenOutgoing { id: _id, receiver: pi.patron, amount: pi.value }),
                        ),
                        EscrowEvent::AuditInfoUpdated(
                            (AuditInfoUpdated {
                                id: Some(_id),
                                payment_info: Some(newpi),
                                updated_by: Some(caller),
                            }),
                        ),
                    ],
                    pi.value as int,
                )
            }),
    {
        let mut payment_info = self.audit_id_to_payment_info[_id as usize];
        let terminal = matches!(
            payment_info.currentstatus,
            AuditStatus::AuditCompleted | AuditStatus::AuditExpired,
        );
        if payment_info.patron == caller && !terminal && (matches!(
            payment_info.currentstatus,
            AuditStatus::AuditCreated,
        ) || payment_info.deadline <= now) {
            payment_info.currentstatus = AuditStatus::AuditExpired;
            if success {
                self.events.push(EscrowEvent::TokenOutgoing(TokenOutgoing {
                    id: _id,
                    receiver: payment_info.patron,
                    amount: payment_info.value,
                }));
                self.events.push(EscrowEvent::AuditInfoUpdated(AuditInfoUpdated {
                    id: Some(_id),
                    payment_info: Some(payment_info),
                    updated_by: Some(caller),
                }));
                self.audit_id_to_payment_info[_id as usize] = payment_info;
                self.value_disbursed = Ghost(
                    self.value_disbursed@.update(
                        _id as int,
                        self.value_disbursed@[_id as int] + payment_info.value,
                    ),
                );
                proof {
                    assert(self.events@ =~= old(self).events@ + seq![
                        EscrowEvent::TokenOutgoing(
                            (TokenOutgoing {
                                id: _id,
                                receiver: payment_info.patron,
                                amount: payment_info.value,
                            }),
                        ),
                        EscrowEvent::AuditInfoUpdated(
                            (AuditInfoUpdated {
                                id: Some(_id),
                                payment_info: Some(payment_info),
                                updated_by: Some(caller),
                            }),
                        ),
                    ]);
                }
                Ok(())
            } else {
                Err(Error::UnAuthorisedCall)
            }
        } else {
            Err(Error::UnAuthorisedCall)
        }
    }

    /// Stores an assigned record, restarts the payout accounting of its
    /// audit at the newly locked value and logs the assignment event.
    fn commit_assignment(&mut self, _id: u32, payment_info: PaymentInfo)
        requires
            old(self).wf(),
            _id < old(self).n(),
            payment_info.value <= BALANCE_CAP,
        ensures
            final(self).wf(),
            old(self).conserves() ==> final(self).conserves(),
            assign_committed(*old(self), *final(self), _id, payment_info),
    {
        self.audit_id_to_payment_info[_id as usize] = payment_info;
        self.value_baseline = Ghost(
            self.value_baseline@.update(_id as int, payment_info.value as int),
        );
        self.value_disbursed = Ghost(self.value_disbursed@.update(_id as int, 0));
        self.events.push(EscrowEvent::AuditIdAssigned(AuditIdAssigned {
            id: Some(_id),
            payment_info: Some(payment_info),
        }));
    }
}

/// State change of an operation that replaces the record of `id` with
/// `newpi`, appends the events `evs`, and pays out `paid` of the audit's
/// value; everything else, the payout baseline included, stays.
pub open spec fn payouts_committed(
    pre: Escrow,
    post: Escrow,
    id: u32,
    newpi: PaymentInfo,
    evs: Seq<EscrowEvent>,
    paid: int,
) -> bool {
    &&& post.audit_id_to_payment_info@ == pre.audit_id_to_payment_info@.update(id as int, newpi)
    &&& post.events@ == pre.events@ + evs
    &&& post.audit_id_to_time_increase_request@ == pre.audit_id_to_time_increase_request@
    &&& post.audit_id_to_ipfs_hash@ == pre.audit_id_to_ipfs_hash@
    &&& post.current_audit_id == pre.current_audit_id
    &&& post.stablecoin_address == pre.stablecoin_address
    &&& post.value_baseline@ == pre.value_baseline@
    &&& post.value_disbursed@ == pre.value_disbursed@.update(
        id as int,
        pre.value_disbursed@[id as int] + paid,
    )
}

/// State change of an operation that replaces the record of `id` with
/// `newpi` and appends the events `evs`, paying nothing out.
pub open spec fn status_committed(
    pre: Escrow,
    post: Escrow,
    id: u32,
    newpi: PaymentInfo,
    evs: Seq<EscrowEvent>,
) -> bool {
    &&& post.audit_id_to_payment_info@ == pre.audit_id_to_payment_info@.update(id as int, newpi)
    &&& post.events@ == pre.events@ + evs
    &&& post.audit_id_to_time_increase_request@ == pre.audit_id_to_time_increase_request@
    &&& post.audit_id_to_ipfs_hash@ == pre.audit_id_to_ipfs_hash@
    &&& post.current_audit_id == pre.current_audit_id
    &&& post.stablecoin_address == pre.stablecoin_address
    &&& post.value_baseline@ == pre.value_baseline@
    &&& post.value_disbursed@ == pre.value_disbursed@
}

/// Whether the patron may assess the record: only a submitted report.
pub open spec fn assess_by_patron(pi: PaymentInfo, caller: AccountId) -> bool {
    caller == pi.patron && pi.currentstatus is AuditSubmitted
}

/// Whether the arbiter provider may assess the record: only a disputed one.
pub open spec fn assess_by_provider(pi: PaymentInfo, caller: AccountId) -> bool {
    caller == pi.arbiterprovider && pi.currentstatus is AuditAwaitingValidation
}

/// Whether the arbiter provider may extend the deadline of the record.
pub open spec fn extend_conditions_met(
    pi: PaymentInfo,
    caller: AccountId,
    new_deadline: u64,
    haircut: Balance,
    arbitersshare: Balance,
    now: Timestamp,
) -> bool {
    &&& haircut <= 90
    &&& new_deadline > now + MIN_EXTENSION_MARGIN
    &&& caller == pi.arbiterprovider
    &&& arbitersshare <= 10
    &&& pi.currentstatus is AuditAwaitingValidation
}

/// Whether the patron may expire the record: only a live one, either never
/// assigned or past its deadline.  A completed or expired audit is settled;
/// its value has already been paid out and cannot be reclaimed.  A disputed
/// record past its deadline may still be expired: the operation admits every
/// non-terminal status.
pub open spec fn expire_allowed(pi: PaymentInfo, caller: AccountId, now: Timestamp) -> bool {
    &&& caller == pi.patron
    &&& !is_terminal(pi.currentstatus)
    &&& pi.currentstatus is AuditCreated || pi.deadline <= now
}

/// The value `arbiters_extend_deadline` returns: success exactly when all
/// conditions were met and the transfers went through.
pub open spec fn extend_result(
    pre: Escrow,
    _id: u32,
    new_deadline: u64,
    haircut: Balance,
    arbitersshare: Balance,
    success: bool,
    caller: AccountId,
    now: Timestamp,
) -> Result<(), Error> {
    let pi = pre.records()[_id as int];
    if extend_conditions_met(pi, caller, new_deadline, haircut, arbitersshare, now) && success {
        Ok(())
    } else {
        Err(Error::ArbitersExtendDeadlineConditionsNotMet)
    }
}

/// State change of `arbiters_extend_deadline`, for result `r`.
pub open spec fn extend_transition(
    pre: Escrow,
    post: Escrow,
    _id: u32,
    new_deadline: u64,
    haircut: Balance,
    arbitersshare: Balance,
    success: bool,
    caller: AccountId,
    now: Timestamp,
    r: Result<(), Error>,
) -> bool {
            ({
                let pi = pre.records()[_id as int];
                let v = pi.value as int;
                let met = extend_conditions_met(pi, caller, new_deadline, haircut, arbitersshare, now);
                &&& !(met && success) ==> r == Err::<(), Error>(
                    Error::ArbitersExtendDeadlineConditionsNotMet,
                ) && post == pre
                &&& met && success ==> ({
                    let arbiterscut = v * arbitersshare as int / 100;
                    let haircutvalue = v * haircut as int / 100;
                    let kept = v * (100 - (arbitersshare as int + haircut as int)) / 100;
                    let newpi = (PaymentInfo {
                        value: kept as Balance,
                        deadline: new_deadline,
                        ..pi
                    });
                    &&& r is Ok
                    &&& payouts_committed(
                        pre,
                        post,
                        _id,
                        newpi,
                        seq![
                            EscrowEvent::TokenOutgoing(
                                (TokenOutgoing {
                                    id: _id,
                                    receiver: pi.arbiterprovider,
                                    amount: arbiterscut as Balance,
                                }),
                            ),
                            EscrowEvent::TokenOutgoing(
                                (TokenOutgoing {
                                    id: _id,
                                    receiver: pi.patron,
                                    amount: haircutvalue as Balance,
                                }),
                            ),
                            EscrowEvent::AuditInfoUpdated(
                                (AuditInfoUpdated {
                                    id: Some(_id),
                                    payment_info: Some(newpi),
                                    updated_by: Some(pi.patron),
                                }),
                            ),
                        ],
                        arbiterscut + haircutvalue,
                    )
                })
            })
}

/// The value `assess_audit` returns, determined by the record, the caller
/// and the transfer outcome.
pub open spec fn assess_result(
    pre: Escrow,
    _id: u32,
    answer: bool,
    success: bool,
    caller: AccountId,
) -> Result<(), Error> {
    let pi = pre.records()[_id as int];
    if assess_by_patron(pi, caller) {
        if !answer || success {
            Ok(())
        } else {
            Err(Error::TransferFromContractFailed)
        }
    } else if assess_by_provider(pi, caller) {
        if success {
            Ok(())
        } else {
            Err(Error::TransferFromContractFailed)
        }
    } else {
        Err(Error::UnAuthorisedCall)
    }
}

/// State change of `assess_audit`, for result `r`.
pub open spec fn assess_transition(
    pre: Escrow,
    post: Escrow,
    _id: u32,
    answer: bool,
    success: bool,
    caller: AccountId,
    r: Result<(), Error>,
) -> bool {
            ({
                let pi = pre.records()[_id as int];
                let v = pi.value as int;
                &&& assess_by_patron(pi, caller) && answer && success ==> r is Ok
                    && payouts_committed(
                    pre,
                    post,
                    _id,
                    (PaymentInfo { currentstatus: AuditStatus::AuditCompleted, ..pi }),
                    seq![
                        EscrowEvent::TokenOutgoing(
                            (TokenOutgoing {
                                id: _id,
                                receiver: pi.auditor,
                                amount: (v * 98 / 100) as Balance,
                            }),
                        ),
                        EscrowEvent::TokenOutgoing(
                            (TokenOutgoing {
                                id: _id,
                                receiver: pi.arbiterprovider,
                                amount: (v * 2 / 100) as Balance,
                            }),
                        ),
                    ],
                    v * 98 / 100 + v * 2 / 100,
                )
                &&& assess_by_patron(pi, caller) && answer && !success ==> r == Err::<(), Error>(
                    Error::TransferFromContractFailed,
                ) && post == pre
                &&& assess_by_patron(pi, caller) && !answer ==> r is Ok && status_committed(
                    pre,
                    post,
                    _id,
                    (PaymentInfo { currentstatus: AuditStatus::AuditAwaitingValidation, ..pi }),
                    seq![
                        EscrowEvent::AuditRequestsArbitration(
                            (AuditRequestsArbitration { id: _id }),
                        ),
                    ],
                )
                &&& !assess_by_patron(pi, caller) && assess_by_provider(pi, caller) && answer
                    && success ==> r is Ok && payouts_committed(
                    pre,
                    post,
                    _id,
                    (PaymentInfo { currentstatus: AuditStatus::AuditCompleted, ..pi }),
                    seq![
                        EscrowEvent::TokenOutgoing(
                            (TokenOutgoing {
                                id: _id,
                                receiver: pi.auditor,
                                amount: (v * 95 / 100) as Balance,
                            }),
                        ),
                        EscrowEvent::TokenOutgoing(
                            (TokenOutgoing {
                                id: _id,
                                receiver: pi.arbiterprovider,
                                amount: (v * 5 / 100) as Balance,
                            }),
                        ),
                    ],
                    v * 95 / 100 + v * 5 / 100,
                )
                &&& !assess_by_patron(pi, caller) && assess_by_provider(pi, caller) && !answer
                    && success ==> r is Ok && payouts_committed(
                    pre,
                    post,
                    _id,
                    (PaymentInfo { currentstatus: AuditStatus::AuditExpired, ..pi }),
                    seq![
                        EscrowEvent::TokenOutgoing(
                            (TokenOutgoing {
                                id: _id,
                                receiver: pi.patron,
                                amount: (v * 95 / 100) as Balance,
                            }),
                        ),
                        EscrowEvent::TokenOutgoing(
                            (TokenOutgoing {
                                id: _id,
                                receiver: pi.arbiterprovider,
                                amount: (v * 5 / 100) as Balance,
                            }),
                        ),
                        EscrowEvent::AuditInfoUpdated(
                            (AuditInfoUpdated {
                                id: Some(_id),
                                payment_info: Some(
                                    (PaymentInfo {
                                        currentstatus: AuditStatus::AuditExpired,
                                        ..pi
                                    }),
                                ),
                                updated_by: Some(caller),
                            }),
                        ),
                    ],
                    v * 95 / 100 + v * 5 / 100,
                )
                &&& !assess_by_patron(pi, caller) && assess_by_provider(pi, caller) && !success
                    ==> r == Err::<(), Error>(Error::TransferFromContractFailed) && post
                    == pre
                &&& !assess_by_patron(pi, caller) && !assess_by_provider(pi, caller) ==> r
                    == Err::<(), Error>(Error::UnAuthorisedCall) && post == pre
            })
}

/// Law: percentage payouts computed with truncating division never exceed
/// the value they are taken from.  For any value `v` and shares `a`, `b`
/// summing to at most 100, the two payouts `v*a/100` and `v*b/100` together
/// with the retained remainder `v*(100-(a+b))/100` stay within `v`.
pub proof fn lemma_percent_split_within_value(v: int, a: int, b: int)
    requires
        0 <= v,
        0 <= a,
        0 <= b,
        a + b <= 100,
    ensures
        0 <= v * a / 100,
        0 <= v * b / 100,
        0 <= v * (100 - (a + b)) / 100,
        v * a / 100 + v * b / 100 + v * (100 - (a + b)) / 100 <= v,
        v * a / 100 <= v,
        v * b / 100 <= v,
        v * (100 - (a + b)) / 100 <= v,
{
    let c = 100 - (a + b);
    vstd::arithmetic::mul::lemma_mul_nonnegative(v, a);
    vstd::arithmetic::mul::lemma_mul_nonnegative(v, b);
    vstd::arithmetic::mul::lemma_mul_nonnegative(v, c);
    assert(v * a + v * b + v * c == v * 100) by (nonlinear_arith)
        requires
            c == 100 - (a + b),
    ;
    vstd::arithmetic::div_mod::lemma_fundamental_div_mod(v * a, 100);
    vstd::arithmetic::div_mod::lemma_fundamental_div_mod(v * b, 100);
    vstd::arithmetic::div_mod::lemma_fundamental_div_mod(v * c, 100);
    vstd::arithmetic::div_mod::lemma_mod_bound(v * a, 100);
    vstd::arithmetic::div_mod::lemma_mod_bound(v * b, 100);
    vstd::arithmetic::div_mod::lemma_mod_bound(v * c, 100);
}

/// Products of a capped value with a share of at most 100 stay inside the
/// balance type.
pub proof fn lemma_percent_product_fits(v: int, p: int)
    requires
        0 <= v <= BALANCE_CAP,
        0 <= p <= 100,
    ensures
        v * p <= Balance::MAX,
{
    assert(v * p <= (BALANCE_CAP as int) * 100) by (nonlinear_arith)
        requires
            0 <= v <= BALANCE_CAP,
            0 <= p <= 100,
    ;
}

/// Whether `caller` may assign an auditor to the record: the caller is the
/// patron and the record is still in `AuditCreated`.
pub open spec fn assign_authorized(pi: PaymentInfo, caller: AccountId) -> bool {
    pi.patron == caller && pi.currentstatus is AuditCreated
}

/// The record as `assign_audit` stores it on success.
pub open spec fn assigned_record(
    pi: PaymentInfo,
    auditor: AccountId,
    value: Balance,
    deadline: u64,
    now: Timestamp,
) -> PaymentInfo {
    PaymentInfo {
        auditor,
        starttime: now,
        value,
        deadline,
        currentstatus: AuditStatus::AuditAssigned,
        ..pi
    }
}

/// State change of a successful `assign_audit`: exactly the record of `id`
/// is replaced, its payout accounting restarts at the newly locked value,
/// and one assignment event is logged.
pub open spec fn assign_committed(pre: Escrow, post: Escrow, id: u32, newpi: PaymentInfo) -> bool {
    &&& post.audit_id_to_payment_info@ == pre.audit_id_to_payment_info@.update(id as int, newpi)
    &&& post.audit_id_to_time_increase_request@ == pre.audit_id_to_time_increase_request@
    &&& post.audit_id_to_ipfs_hash@ == pre.audit_id_to_ipfs_hash@
    &&& post.current_audit_id == pre.current_audit_id
    &&& post.stablecoin_address == pre.stablecoin_address
    &&& post.events@ == pre.events@.push(
        EscrowEvent::AuditIdAssigned(
            (AuditIdAssigned { id: Some(id), payment_info: Some(newpi) }),
        ),
    )
    &&& post.value_baseline@ == pre.value_baseline@.update(id as int, newpi.value as int)
    &&& post.value_disbursed@ == pre.value_disbursed@.update(id as int, 0)
}

} // verus!
