//! One escrow record and its approval state machine.
//!
//! A record is opened with a fixed group of participants, a required
//! deposit, an approval threshold and a destination. Participants approve
//! one at a time, each attaching the required deposit. The approval that
//! brings the approved share up to the threshold releases the funds: the
//! record hands out one transfer instruction and takes no more approvals.

use vstd::prelude::*;
use crate::error::{EscrowError, ValidationError};
use crate::ledger::{
    approved_entries, approvers, count_approved, distinct_accounts, fresh_ledger, has_account,
    ledger_of, lemma_ledger_after_update, lemma_ledger_keys, lemma_ledger_of_distinct,
    lemma_named_accounts_grow, named_accounts, position_of, Participant,
};
use crate::ratio::{lemma_nothing_approved_never_reaches, Ratio};

verus! {

/// An instruction to pay `amount` to `destination`.
#[derive(Debug, PartialEq, Eq)]
pub struct Transfer {
    pub destination: String,
    pub amount: u128,
}

/// What a [`Transfer`] says, as plain values.
pub struct TransferView {
    pub destination: Seq<char>,
    pub amount: nat,
}

impl View for Transfer {
    type V = TransferView;

    open spec fn view(&self) -> TransferView {
        TransferView { destination: self.destination@, amount: self.amount as nat }
    }
}

/// What an accepted approval led to.
#[derive(Debug, PartialEq, Eq)]
pub enum ApprovalResult {
    /// The approval was recorded; the threshold is not reached yet.
    Pending,
    /// The approval was recorded and reached the threshold: the transfer is
    /// to be carried out, and the record is closed.
    Released(Transfer),
}

/// An escrow record as a mathematical value.
pub struct MultisigView {
    pub id: nat,
    pub participants: Map<Seq<char>, bool>,
    pub required_amount: nat,
    pub approval_ratio: Ratio,
    pub destination: Seq<char>,
    pub released: bool,
}

/// The first reason, if any, to turn down the inputs of a new record:
/// an empty group, then a zero deposit, then a ratio outside `(0, 1]`.
pub open spec fn validation_error(
    group_size: nat,
    required_amount: nat,
    approval_ratio: Ratio,
) -> Option<ValidationError> {
    if group_size == 0 {
        Some(ValidationError::NoParticipants)
    } else if required_amount == 0 {
        Some(ValidationError::ZeroAmount)
    } else if !approval_ratio.in_range() {
        Some(ValidationError::RatioOutOfRange)
    } else {
        None
    }
}

impl MultisigView {
    /// The record as it is opened: `accounts` take part, nobody has
    /// approved, nothing is released.
    pub open spec fn opened(
        id: nat,
        accounts: Set<Seq<char>>,
        required_amount: nat,
        approval_ratio: Ratio,
        destination: Seq<char>,
    ) -> MultisigView {
        MultisigView {
            id,
            participants: fresh_ledger(accounts),
            required_amount,
            approval_ratio,
            destination,
            released: false,
        }
    }

    /// `account` is one of the participants.
    pub open spec fn is_participant(self, account: Seq<char>) -> bool {
        self.participants.contains_key(account)
    }

    /// `account` is a participant who has approved.
    pub open spec fn has_approved(self, account: Seq<char>) -> bool {
        self.participants.contains_key(account) && self.participants[account]
    }

    /// How many participants have approved.
    pub open spec fn approved_count(self) -> nat {
        approvers(self.participants).len()
    }

    /// How many participants there are.
    pub open spec fn total_participants(self) -> nat {
        self.participants.dom().len()
    }

    /// The approved share of the group is at least the approval ratio.
    pub open spec fn threshold_reached(self) -> bool {
        self.approval_ratio.reached_by(self.approved_count(), self.total_participants())
    }

    /// What holds of every record: a finite, non-empty group, a positive
    /// deposit, a ratio in `(0, 1]`, and released exactly when the
    /// threshold is reached.
    pub open spec fn valid(self) -> bool {
        &&& self.participants.dom().finite()
        &&& self.participants.dom().len() > 0
        &&& self.required_amount > 0
        &&& self.approval_ratio.in_range()
        &&& self.released == self.threshold_reached()
    }

    /// Why an approval by `caller` with `attached_amount` is turned down,
    /// or `None` where it is accepted. The checks come in this order:
    /// released, amount, membership, earlier approval.
    pub open spec fn approve_error(self, caller: Seq<char>, attached_amount: nat) -> Option<
        EscrowError,
    > {
        if self.released {
            Some(EscrowError::AlreadyReleased)
        } else if attached_amount != self.required_amount {
            Some(EscrowError::WrongAmount)
        } else if !self.is_participant(caller) {
            Some(EscrowError::NotAParticipant)
        } else if self.participants[caller] {
            Some(EscrowError::AlreadyApproved)
        } else {
            None
        }
    }

    /// The record with the flag of `caller` set, the release not yet decided.
    pub open spec fn with_approval_of(self, caller: Seq<char>) -> MultisigView {
        MultisigView { participants: self.participants.insert(caller, true), ..self }
    }

    /// The record after `caller` has submitted an approval with
    /// `attached_amount`: unchanged where the approval is turned down;
    /// else with the caller's flag set, and released if that reaches the
    /// threshold.
    pub open spec fn after_approve(self, caller: Seq<char>, attached_amount: nat) -> MultisigView {
        if self.approve_error(caller, attached_amount) is Some {
            self
        } else {
            MultisigView {
                released: self.with_approval_of(caller).threshold_reached(),
                ..self.with_approval_of(caller)
            }
        }
    }

    /// An approval by `caller` with `attached_amount` is accepted and
    /// releases the funds.
    pub open spec fn releases_on(self, caller: Seq<char>, attached_amount: nat) -> bool {
        self.approve_error(caller, attached_amount) is None && self.with_approval_of(
            caller,
        ).threshold_reached()
    }

    /// The transfer that a release of this record asks for: the required
    /// amount, to the destination.
    pub open spec fn release_transfer(self) -> TransferView {
        TransferView { destination: self.destination, amount: self.required_amount }
    }
}

/// One escrow record.
#[derive(Debug)]
pub struct Multisig {
    id: u64,
    participants: Vec<Participant>,
    required_amount: u128,
    approval_ratio: Ratio,
    destination: String,
    released: bool,
}

impl View for Multisig {
    type V = MultisigView;

    closed spec fn view(&self) -> MultisigView {
        MultisigView {
            id: self.id as nat,
            participants: ledger_of(self.participants@),
            required_amount: self.required_amount as nat,
            approval_ratio: self.approval_ratio,
            destination: self.destination@,
            released: self.released,
        }
    }
}

impl Multisig {
    /// No participant is listed twice in memory.
    pub closed spec fn listed_once(&self) -> bool {
        distinct_accounts(self.participants@)
    }

    /// The record is well formed: no participant is listed twice, and its
    /// view is valid.
    pub open spec fn wf(&self) -> bool {
        &&& self.listed_once()
        &&& self@.valid()
    }

    /// Opens a record for `participants`, with id `id`.
    ///
    /// A participant named more than once takes part once. The inputs are
    /// turned down where the group is empty, the deposit is zero, or the
    /// ratio is outside `(0, 1]`, in this order; the destination is taken
    /// as it is.
    pub fn new(
        id: u64,
        participants: Vec<String>,
        required_amount: u128,
        approval_ratio: Ratio,
        destination: String,
    ) -> (r: Result<Multisig, ValidationError>)
        ensures
            match r {
                Ok(record) => {
                    &&& validation_error(
                        participants@.len(),
                        required_amount as nat,
                        approval_ratio,
                    ) is None
                    &&& record.wf()
                    &&& record@ == MultisigView::opened(
                        id as nat,
                        named_accounts(participants@),
                        required_amount as nat,
                        approval_ratio,
                        destination@,
                    )
                },
                Err(e) => validation_error(
                    participants@.len(),
                    required_amount as nat,
                    approval_ratio,
                ) == Some(e),
            },
    {
        if participants.len() == 0 {
            return Err(ValidationError::NoParticipants);
        }
        if required_amount == 0 {
            return Err(ValidationError::ZeroAmount);
        }
        if !approval_ratio.is_in_range() {
            return Err(ValidationError::RatioOutOfRange);
        }
        let mut entries: Vec<Participant> = Vec::new();
        let mut i: usize = 0;
        proof {
            assert(named_accounts(participants@.take(0)) =~= Set::empty());
            assert(ledger_of(entries@) =~= fresh_ledger(named_accounts(participants@.take(0))));
        }
        while i < participants.len()
            invariant
                i <= participants@.len(),
                distinct_accounts(entries@),
                i > 0 ==> entries@.len() > 0,
                approved_entries(entries@) == 0,
                ledger_of(entries@) == fresh_ledger(named_accounts(participants@.take(i as int))),
            decreases participants@.len() - i,
        {
            let ghost before = entries@;
            proof {
                lemma_ledger_keys(before);
            }
            let known = position_of(&entries, &participants[i]);
            if known.is_none() {
                let account = participants[i].clone();
                entries.push(Participant { account, approved: false });
                proof {
                    assert(entries@.drop_last() =~= before);
                    assert(!ledger_of(before).contains_key(participants@[i as int]@));
                    assert(distinct_accounts(entries@)) by {
                        assert forall|a: int, b: int| 0 <= a < b < entries@.len() implies entries@[a].account@
                            != entries@[b].account@ by {
                            if b == entries@.len() - 1 {
                                assert(before[a].account@ == entries@[a].account@);
                                assert(has_account(before, before[a].account@));
                            } else {
                                assert(before[a].account@ != before[b].account@);
                            }
                        }
                    }
                }
            }
            proof {
                lemma_named_accounts_grow(participants@.take(i as int), participants@[i as int]);
                assert(participants@.take(i as int).push(participants@[i as int]) =~= participants@.take(
                    i + 1,
                ));
                assert(ledger_of(entries@) =~= fresh_ledger(
                    named_accounts(participants@.take(i + 1)),
                ));
            }
            i += 1;
        }
        proof {
            assert(participants@.take(i as int) =~= participants@);
        }
        let record = Multisig {
            id,
            participants: entries,
            required_amount,
            approval_ratio,
            destination,
            released: false,
        };
        proof {
            lemma_ledger_of_distinct(record.participants@);
            lemma_nothing_approved_never_reaches(
                approval_ratio,
                record@.total_participants(),
            );
        }
        Ok(record)
    }

    /// Rebuilds a record from stored parts, if they make up a well-formed
    /// record.
    ///
    /// The parts are turned down where an account is listed twice or the
    /// record they describe is not valid: an empty group, a zero deposit,
    /// a ratio outside `(0, 1]`, or a released flag that does not say
    /// whether the approved share reaches the ratio.
    pub fn restore(
        id: u64,
        entries: Vec<Participant>,
        required_amount: u128,
        approval_ratio: Ratio,
        destination: String,
        released: bool,
    ) -> (r: Option<Multisig>)
        ensures
            match r {
                Some(record) => {
                    &&& record.wf()
                    &&& record.entries_view() == entries@
                    &&& record@ == Self::stored_view(
                        id,
                        entries@,
                        required_amount,
                        approval_ratio,
                        destination@,
                        released,
                    )
                },
                None => !(distinct_accounts(entries@) && Self::stored_view(
                    id,
                    entries@,
                    required_amount,
                    approval_ratio,
                    destination@,
                    released,
                ).valid()),
            },
    {
        if entries.len() == 0 || required_amount == 0 || !approval_ratio.is_in_range() {
            proof {
                assert(ledger_of(entries@).dom().len() > 0 ==> entries@.len() > 0) by {
                    if entries@.len() == 0 {
                        assert(ledger_of(entries@).dom() =~= Set::empty());
                    }
                }
            }
            return None;
        }
        let mut i: usize = 0;
        while i < entries.len()
            invariant
                i <= entries@.len(),
                distinct_accounts(entries@.take(i as int)),
            decreases entries@.len() - i,
        {
            let first = position_of(&entries, &entries[i].account);
            let listed_before = match first {
                Some(j) => j != i,
                None => true,
            };
            if listed_before {
                proof {
                    assert(has_account(entries@, entries@[i as int].account@));
                    let j = first->Some_0 as int;
                    assert(entries@[j].account@ == entries@[i as int].account@);
                }
                return None;
            }
            proof {
                let shorter = entries@.take(i as int);
                let longer = entries@.take(i + 1);
                assert forall|a: int, b: int| 0 <= a < b < longer.len() implies longer[a].account@
                    != longer[b].account@ by {
                    if b < i {
                        assert(shorter[a].account@ != shorter[b].account@);
                    }
                }
            }
            i += 1;
        }
        proof {
            assert(entries@.take(i as int) =~= entries@);
            lemma_ledger_of_distinct(entries@);
        }
        let approved = count_approved(&entries);
        let total = entries.len();
        if released != approval_ratio.is_reached_by(approved, total) {
            return None;
        }
        Some(
            Multisig {
                id,
                participants: entries,
                required_amount,
                approval_ratio,
                destination,
                released,
            },
        )
    }

    /// Submits the approval of `caller`, who attached `attached_amount`.
    ///
    /// The approval is turned down where the record is released, the
    /// amount is not the required one, the caller is no participant, or
    /// the caller has approved before; these are checked in this order, and
    /// the record is then left as it was. Else the caller's flag is set. If
    /// the approved share now reaches the ratio, the record is released and
    /// the transfer of the required amount to the destination is handed
    /// out; else the approval is pending.
    pub fn approve(&mut self, caller: &String, attached_amount: u128) -> (r: Result<
        ApprovalResult,
        EscrowError,
    >)
        requires
            old(self).wf(),
        ensures
            final(self).wf(),
            final(self)@ == old(self)@.after_approve(caller@, attached_amount as nat),
            match r {
                Ok(ApprovalResult::Released(transfer)) => {
                    &&& old(self)@.releases_on(caller@, attached_amount as nat)
                    &&& transfer@ == old(self)@.release_transfer()
                },
                Ok(ApprovalResult::Pending) => {
                    &&& old(self)@.approve_error(caller@, attached_amount as nat) is None
                    &&& !old(self)@.releases_on(caller@, attached_amount as nat)
                },
                Err(e) => old(self)@.approve_error(caller@, attached_amount as nat) == Some(e),
            },
    {
        proof {
            lemma_ledger_keys(self.participants@);
            lemma_ledger_of_distinct(self.participants@);
        }
        if self.released {
            return Err(EscrowError::AlreadyReleased);
        }
        if attached_amount != self.required_amount {
            return Err(EscrowError::WrongAmount);
        }
        let index: usize = match position_of(&self.participants, caller) {
            Some(i) => i,
            None => {
                return Err(EscrowError::NotAParticipant);
            },
        };
        if self.participants[index].approved {
            return Err(EscrowError::AlreadyApproved);
        }
        let account = self.participants[index].account.clone();
        let ghost before = self.participants@;
        self.participants.set(index, Participant { account, approved: true });
        proof {
            lemma_ledger_after_update(before, index as int, self.participants@[index as int]);
            lemma_ledger_of_distinct(self.participants@);
            assert(ledger_of(self.participants@).dom() =~= ledger_of(before).dom());
        }
        let approved = count_approved(&self.participants);
        let total = self.participants.len();
        if self.approval_ratio.is_reached_by(approved, total) {
            self.released = true;
            Ok(
                ApprovalResult::Released(
                    Transfer { destination: self.destination.clone(), amount: self.required_amount },
                ),
            )
        } else {
            Ok(ApprovalResult::Pending)
        }
    }

    /// The record that the given stored parts describe.
    pub open spec fn stored_view(
        id: u64,
        entries: Seq<Participant>,
        required_amount: u128,
        approval_ratio: Ratio,
        destination: Seq<char>,
        released: bool,
    ) -> MultisigView {
        MultisigView {
            id: id as nat,
            participants: ledger_of(entries),
            required_amount: required_amount as nat,
            approval_ratio,
            destination,
            released,
        }
    }

    /// The participants as they are listed in memory.
    pub closed spec fn entries_view(&self) -> Seq<Participant> {
        self.participants@
    }

    /// The record's id.
    pub fn id(&self) -> (id: u64)
        ensures
            id == self@.id,
    {
        self.id
    }

    /// The deposit that each approval must attach.
    pub fn required_amount(&self) -> (amount: u128)
        ensures
            amount == self@.required_amount,
    {
        self.required_amount
    }

    /// The share of the group whose approval releases the funds.
    pub fn approval_ratio(&self) -> (ratio: Ratio)
        ensures
            ratio == self@.approval_ratio,
    {
        self.approval_ratio
    }

    /// Who receives the funds on release.
    pub fn destination(&self) -> (destination: &String)
        ensures
            destination@ == self@.destination,
    {
        &self.destination
    }

    /// Whether the funds have been released.
    pub fn is_released(&self) -> (released: bool)
        ensures
            released == self@.released,
    {
        self.released
    }

    /// The participants with their flags, each account once.
    pub fn entries(&self) -> (entries: &Vec<Participant>)
        requires
            self.wf(),
        ensures
            entries@ == self.entries_view(),
            distinct_accounts(entries@),
            ledger_of(entries@) == self@.participants,
    {
        &self.participants
    }

    /// Whether `account` is one of the participants.
    pub fn is_participant(&self, account: &String) -> (found: bool)
        ensures
            found == self@.is_participant(account@),
    {
        proof {
            lemma_ledger_keys(self.participants@);
        }
        position_of(&self.participants, account).is_some()
    }

    /// The approval flag of `account`, or `None` where `account` takes no
    /// part in the record.
    pub fn approval_of(&self, account: &String) -> (flag: Option<bool>)
        requires
            self.wf(),
        ensures
            flag == if self@.is_participant(account@) {
                Some(self@.participants[account@])
            } else {
                None
            },
    {
        proof {
            lemma_ledger_keys(self.participants@);
            lemma_ledger_of_distinct(self.participants@);
        }
        match position_of(&self.participants, account) {
            Some(i) => Some(self.participants[i].approved),
            None => None,
        }
    }

    /// How many participants have approved.
    pub fn approved_count(&self) -> (count: usize)
        requires
            self.wf(),
        ensures
            count == self@.approved_count(),
    {
        proof {
            lemma_ledger_of_distinct(self.participants@);
        }
        count_approved(&self.participants)
    }

    /// How many participants there are.
    pub fn total_participants(&self) -> (total: usize)
        requires
            self.wf(),
        ensures
            total == self@.total_participants(),
    {
        proof {
            lemma_ledger_of_distinct(self.participants@);
        }
        self.participants.len()
    }
}

} // verus!
