//! The registry of escrow records.
//!
//! The registry issues ids in sequence, starting at zero, keeps each record
//! under its id, and passes approvals on to the record they name.

use vstd::prelude::*;
use crate::error::{EscrowError, ValidationError};
use crate::ledger::named_accounts;
use crate::multisig::{validation_error, ApprovalResult, Multisig, MultisigView};
use crate::ratio::Ratio;

verus! {

/// A registry as a mathematical value: the next id to issue, and the
/// records by id.
pub struct MultisigContractView {
    pub next_id: nat,
    pub multisigs: Map<nat, MultisigView>,
}

impl MultisigContractView {
    /// The registry at start-up: no record, and zero is the next id.
    pub open spec fn empty() -> MultisigContractView {
        MultisigContractView { next_id: 0, multisigs: Map::empty() }
    }

    /// What holds of every registry: the ids in use are exactly those below
    /// the next id, and each record is valid and carries the id it is kept
    /// under.
    pub open spec fn valid(self) -> bool {
        &&& forall|id: nat| self.multisigs.contains_key(id) <==> id < self.next_id
        &&& forall|id: nat| #[trigger]
            self.multisigs.contains_key(id) ==> self.multisigs[id].id == id
                && self.multisigs[id].valid()
    }

    /// The record with id `id`, if there is one.
    pub open spec fn lookup(self, id: nat) -> Option<MultisigView> {
        if self.multisigs.contains_key(id) {
            Some(self.multisigs[id])
        } else {
            None
        }
    }

    /// The registry after a record for `accounts` has been created: the
    /// record stands under the id that was next, and the next id is one
    /// more.
    pub open spec fn after_create(
        self,
        accounts: Set<Seq<char>>,
        required_amount: nat,
        approval_ratio: Ratio,
        destination: Seq<char>,
    ) -> MultisigContractView {
        MultisigContractView {
            next_id: self.next_id + 1,
            multisigs: self.multisigs.insert(
                self.next_id,
                MultisigView::opened(
                    self.next_id,
                    accounts,
                    required_amount,
                    approval_ratio,
                    destination,
                ),
            ),
        }
    }

    /// Why an approval for record `id` is turned down, or `None` where it
    /// is accepted: an unknown id first, then the record's own checks.
    pub open spec fn approve_error(self, id: nat, caller: Seq<char>, attached_amount: nat) -> Option<
        EscrowError,
    > {
        if !self.multisigs.contains_key(id) {
            Some(EscrowError::NotFound)
        } else {
            self.multisigs[id].approve_error(caller, attached_amount)
        }
    }

    /// The registry after an approval for record `id` has been submitted:
    /// only that record can have changed.
    pub open spec fn after_approve(
        self,
        id: nat,
        caller: Seq<char>,
        attached_amount: nat,
    ) -> MultisigContractView {
        if !self.multisigs.contains_key(id) {
            self
        } else {
            MultisigContractView {
                multisigs: self.multisigs.insert(
                    id,
                    self.multisigs[id].after_approve(caller, attached_amount),
                ),
                ..self
            }
        }
    }
}

/// The registry of escrow records.
#[derive(Debug)]
pub struct MultisigContract {
    multisigs: Vec<Multisig>,
    next_id: u64,
}

impl View for MultisigContract {
    type V = MultisigContractView;

    closed spec fn view(&self) -> MultisigContractView {
        MultisigContractView {
            next_id: self.next_id as nat,
            multisigs: Map::new(
                |id: nat| id < self.multisigs@.len(),
                |id: nat| self.multisigs@[id as int]@,
            ),
        }
    }
}

impl Default for MultisigContract {
    /// The registry at start-up: no record, and zero is the next id.
    fn default() -> (contract: MultisigContract)
        ensures
            contract.wf(),
            contract@ == MultisigContractView::empty(),
    {
        MultisigContract::new()
    }
}

impl MultisigContract {
    /// In memory, the record with id `i` is the `i`-th record, and each
    /// record is well formed.
    pub closed spec fn stored_in_order(&self) -> bool {
        &&& self.next_id == self.multisigs.len()
        &&& forall|i: int|
            0 <= i < self.multisigs@.len() ==> (#[trigger] self.multisigs@[i]).wf()
                && self.multisigs@[i]@.id == i
    }

    /// The registry is well formed: its records are stored in order, and
    /// its view is valid.
    pub open spec fn wf(&self) -> bool {
        &&& self.stored_in_order()
        &&& self@.valid()
    }

    /// The registry at start-up: no record, and zero is the next id.
    pub fn new() -> (contract: MultisigContract)
        ensures
            contract.wf(),
            contract@ == MultisigContractView::empty(),
    {
        let contract = MultisigContract { multisigs: Vec::new(), next_id: 0 };
        proof {
            assert(contract@.multisigs =~= Map::empty());
        }
        contract
    }

    /// How many records the registry holds.
    pub fn len(&self) -> (count: usize)
        requires
            self.wf(),
        ensures
            count == self@.next_id,
    {
        self.multisigs.len()
    }

    /// The id that the next record will get.
    pub fn next_id(&self) -> (id: u64)
        ensures
            id == self@.next_id,
    {
        self.next_id
    }

    /// Creates a record and returns its id.
    ///
    /// The inputs are checked as [`Multisig::new`] checks them. Where they
    /// are turned down the registry is left as it was. Else the new record
    /// gets the next id, which is returned, and the next id goes up by one.
    pub fn create_escrow(
        &mut self,
        participants: Vec<String>,
        required_amount: u128,
        approval_ratio: Ratio,
        destination: String,
    ) -> (r: Result<u64, ValidationError>)
        requires
            old(self).wf(),
        ensures
            final(self).wf(),
            match r {
                Ok(id) => {
                    &&& validation_error(
                        participants@.len(),
                        required_amount as nat,
                        approval_ratio,
                    ) is None
                    &&& id == old(self)@.next_id
                    &&& final(self)@ == old(self)@.after_create(
                        named_accounts(participants@),
                        required_amount as nat,
                        approval_ratio,
                        destination@,
                    )
                },
                Err(e) => {
                    &&& validation_error(
                        participants@.len(),
                        required_amount as nat,
                        approval_ratio,
                    ) == Some(e)
                    &&& final(self)@ == old(self)@
                },
            },
    {
        let id = self.next_id;
        match Multisig::new(id, participants, required_amount, approval_ratio, destination) {
            Err(e) => Err(e),
            Ok(record) => {
                self.multisigs.push(record);
                let count = self.multisigs.len();
                self.next_id = count as u64;
                proof {
                    let expected = old(self)@.after_create(
                        named_accounts(participants@),
                        required_amount as nat,
                        approval_ratio,
                        destination@,
                    );
                    assert(self@.multisigs =~= expected.multisigs);
                }
                Ok(id)
            },
        }
    }

    /// Looks up the record with id `escrow_id`.
    ///
    /// The registry is only read: it is taken by shared reference, so
    /// however often a record is looked up, the registry stays as it is
    /// and the same id gives the same answer.
    pub fn get_escrow(&self, escrow_id: u64) -> (r: Result<&Multisig, EscrowError>)
        requires
            self.wf(),
        ensures
            match r {
                Ok(record) => record.wf() && self@.lookup(escrow_id as nat) == Some(record@),
                Err(e) => e == EscrowError::NotFound && self@.lookup(escrow_id as nat) is None,
            },
    {
        if escrow_id >= self.next_id {
            return Err(EscrowError::NotFound);
        }
        Ok(&self.multisigs[escrow_id as usize])
    }

    /// Submits the approval of `caller`, who attached `attached_amount`,
    /// for the record with id `escrow_id`.
    ///
    /// An unknown id is turned down with `NotFound`. Else the record
    /// decides, as [`Multisig::approve`] says; no other record changes.
    pub fn approve(&mut self, escrow_id: u64, caller: &String, attached_amount: u128) -> (r: Result<
        ApprovalResult,
        EscrowError,
    >)
        requires
            old(self).wf(),
        ensures
            final(self).wf(),
            final(self)@ == old(self)@.after_approve(
                escrow_id as nat,
                caller@,
                attached_amount as nat,
            ),
            match r {
                Ok(ApprovalResult::Released(transfer)) => {
                    &&& old(self)@.approve_error(
                        escrow_id as nat,
                        caller@,
                        attached_amount as nat,
                    ) is None
                    &&& old(self)@.multisigs[escrow_id as nat].releases_on(
                        caller@,
                        attached_amount as nat,
                    )
                    &&& transfer@ == old(self)@.multisigs[escrow_id as nat].release_transfer()
                },
                Ok(ApprovalResult::Pending) => {
                    &&& old(self)@.approve_error(
                        escrow_id as nat,
                        caller@,
                        attached_amount as nat,
                    ) is None
                    &&& !old(self)@.multisigs[escrow_id as nat].releases_on(
                        caller@,
                        attached_amount as nat,
                    )
                },
                Err(e) => old(self)@.approve_error(
                    escrow_id as nat,
                    caller@,
                    attached_amount as nat,
                ) == Some(e),
            },
    {
        if escrow_id >= self.next_id {
            return Err(EscrowError::NotFound);
        }
        let index = escrow_id as usize;
        let r = self.multisigs[index].approve(caller, attached_amount);
        proof {
            let expected = old(self)@.after_approve(
                escrow_id as nat,
                caller@,
                attached_amount as nat,
            );
            assert(self@.multisigs =~= expected.multisigs);
        }
        r
    }
}

} // verus!
