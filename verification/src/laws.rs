//! What holds of every record and every registry, whatever is submitted.
//!
//! Each law is stated over the views and transition functions that the
//! contracts of the executable functions use, so it speaks of what those
//! functions do.

use vstd::prelude::*;
use crate::contract::MultisigContractView;
use crate::error::EscrowError;
use crate::ledger::{approvers, lemma_named_accounts, named_accounts};
use crate::multisig::{validation_error, MultisigView};
use crate::ratio::{
    lemma_everyone_approved_reaches, lemma_nothing_approved_never_reaches, Ratio,
};

verus! {

/// A record opened from accepted inputs is valid, and nobody has approved
/// it.
pub proof fn lemma_opened_is_valid(
    id: nat,
    names: Seq<String>,
    required_amount: nat,
    approval_ratio: Ratio,
    destination: Seq<char>,
)
    requires
        validation_error(names.len(), required_amount, approval_ratio) is None,
    ensures
        MultisigView::opened(
            id,
            named_accounts(names),
            required_amount,
            approval_ratio,
            destination,
        ).valid(),
        MultisigView::opened(
            id,
            named_accounts(names),
            required_amount,
            approval_ratio,
            destination,
        ).approved_count() == 0,
{
    let record = MultisigView::opened(
        id,
        named_accounts(names),
        required_amount,
        approval_ratio,
        destination,
    );
    lemma_named_accounts(names);
    assert(record.participants.dom() =~= named_accounts(names));
    assert(approvers(record.participants) =~= Set::empty());
    lemma_nothing_approved_never_reaches(approval_ratio, record.total_participants());
}

/// An approval never changes the terms of a record: its id, who takes
/// part, the required amount, the ratio and the destination stay as they
/// were opened.
pub proof fn lemma_approve_keeps_terms(record: MultisigView, caller: Seq<char>, attached_amount: nat)
    ensures
        record.after_approve(caller, attached_amount).id == record.id,
        record.after_approve(caller, attached_amount).participants.dom()
            == record.participants.dom(),
        record.after_approve(caller, attached_amount).required_amount == record.required_amount,
        record.after_approve(caller, attached_amount).approval_ratio == record.approval_ratio,
        record.after_approve(caller, attached_amount).destination == record.destination,
{
    assert(record.after_approve(caller, attached_amount).participants.dom()
        =~= record.participants.dom());
}

/// An approval changes at most the caller's flag, and a flag that is set
/// stays set.
pub proof fn lemma_flags_never_revert(
    record: MultisigView,
    caller: Seq<char>,
    attached_amount: nat,
    account: Seq<char>,
)
    ensures
        record.has_approved(account) ==> record.after_approve(
            caller,
            attached_amount,
        ).has_approved(account),
        account != caller ==> record.after_approve(caller, attached_amount).has_approved(account)
            == record.has_approved(account),
{
}

/// An accepted approval turns the caller's flag from unset to set and
/// raises the number of approvals by one.
pub proof fn lemma_accepted_approval_counts_once(
    record: MultisigView,
    caller: Seq<char>,
    attached_amount: nat,
)
    requires
        record.valid(),
        record.approve_error(caller, attached_amount) is None,
    ensures
        !record.has_approved(caller),
        record.after_approve(caller, attached_amount).has_approved(caller),
        record.after_approve(caller, attached_amount).approved_count() == record.approved_count()
            + 1,
        record.after_approve(caller, attached_amount).total_participants()
            == record.total_participants(),
{
    let after = record.after_approve(caller, attached_amount);
    assert(after.participants.dom() =~= record.participants.dom());
    assert(approvers(record.participants).subset_of(record.participants.dom()));
    vstd::set_lib::lemma_len_subset(approvers(record.participants), record.participants.dom());
    assert(approvers(after.participants) =~= approvers(record.participants).insert(caller));
}

/// A valid record stays valid under every submission.
pub proof fn lemma_approve_preserves_valid(
    record: MultisigView,
    caller: Seq<char>,
    attached_amount: nat,
)
    requires
        record.valid(),
    ensures
        record.after_approve(caller, attached_amount).valid(),
{
    if record.approve_error(caller, attached_amount) is None {
        lemma_accepted_approval_counts_once(record, caller, attached_amount);
    }
}

/// A valid record is released exactly when its approved share reaches the
/// ratio; in particular an accepted approval releases it if and only if
/// the share then reaches the ratio.
pub proof fn lemma_released_iff_threshold_reached(
    record: MultisigView,
    caller: Seq<char>,
    attached_amount: nat,
)
    requires
        record.valid(),
    ensures
        record.after_approve(caller, attached_amount).released == record.after_approve(
            caller,
            attached_amount,
        ).threshold_reached(),
        record.releases_on(caller, attached_amount) <==> !record.released && record.after_approve(
            caller,
            attached_amount,
        ).released,
{
    lemma_approve_preserves_valid(record, caller, attached_amount);
}

/// Release never waits for more than everyone: a valid record that all of
/// its participants have approved is released, and a valid record that
/// nobody has approved is open.
pub proof fn lemma_release_between_none_and_all(record: MultisigView)
    requires
        record.valid(),
    ensures
        record.approved_count() == record.total_participants() ==> record.released,
        record.approved_count() == 0 ==> !record.released,
{
    lemma_everyone_approved_reaches(record.approval_ratio, record.total_participants());
    lemma_nothing_approved_never_reaches(record.approval_ratio, record.total_participants());
}

/// Someone who takes no part in a record is always turned down, and the
/// record is left as it was. On an open record, with the required amount
/// attached, the reason is `NotAParticipant`; a differing amount is
/// reported first, and a released record before that.
pub proof fn lemma_outsider_is_turned_down(
    record: MultisigView,
    caller: Seq<char>,
    attached_amount: nat,
)
    requires
        !record.is_participant(caller),
    ensures
        record.approve_error(caller, attached_amount) is Some,
        record.after_approve(caller, attached_amount) == record,
        !record.released && attached_amount == record.required_amount ==> record.approve_error(
            caller,
            attached_amount,
        ) == Some(EscrowError::NotAParticipant),
{
}

/// An approval with an amount other than the required one is always
/// turned down, and the record, every flag included, is left as it was.
/// On an open record the reason is `WrongAmount`; on a released one,
/// `AlreadyReleased`.
pub proof fn lemma_wrong_amount_is_turned_down(
    record: MultisigView,
    caller: Seq<char>,
    attached_amount: nat,
)
    requires
        attached_amount != record.required_amount,
    ensures
        record.after_approve(caller, attached_amount) == record,
        !record.released ==> record.approve_error(caller, attached_amount) == Some(
            EscrowError::WrongAmount,
        ),
        record.released ==> record.approve_error(caller, attached_amount) == Some(
            EscrowError::AlreadyReleased,
        ),
{
}

/// After an accepted approval, the same participant submitting again is
/// turned down and the record is not changed any more. While the record
/// is open the reason is `AlreadyApproved`; where the first approval
/// released it, `AlreadyReleased`.
pub proof fn lemma_second_approval_is_turned_down(
    record: MultisigView,
    caller: Seq<char>,
    attached_amount: nat,
)
    requires
        record.approve_error(caller, attached_amount) is None,
    ensures
        !record.has_approved(caller),
        record.after_approve(caller, attached_amount).has_approved(caller),
        record.after_approve(caller, attached_amount).after_approve(caller, attached_amount)
            == record.after_approve(caller, attached_amount),
        !record.after_approve(caller, attached_amount).released ==> record.after_approve(
            caller,
            attached_amount,
        ).approve_error(caller, attached_amount) == Some(EscrowError::AlreadyApproved),
        record.after_approve(caller, attached_amount).released ==> record.after_approve(
            caller,
            attached_amount,
        ).approve_error(caller, attached_amount) == Some(EscrowError::AlreadyReleased),
{
}

/// A released record is final: every further submission is turned down
/// with `AlreadyReleased`, releases nothing, and leaves the record as it
/// was.
pub proof fn lemma_released_is_final(record: MultisigView, caller: Seq<char>, attached_amount: nat)
    requires
        record.released,
    ensures
        record.approve_error(caller, attached_amount) == Some(EscrowError::AlreadyReleased),
        !record.releases_on(caller, attached_amount),
        record.after_approve(caller, attached_amount) == record,
{
}

/// A record releases at most once: after the approval that releases it,
/// no submission releases it again.
pub proof fn lemma_release_fires_once(
    record: MultisigView,
    caller: Seq<char>,
    attached_amount: nat,
    later_caller: Seq<char>,
    later_amount: nat,
)
    requires
        record.releases_on(caller, attached_amount),
    ensures
        record.after_approve(caller, attached_amount).released,
        !record.after_approve(caller, attached_amount).releases_on(later_caller, later_amount),
{
}

/// A registry stays valid when a record is created from accepted inputs.
pub proof fn lemma_create_preserves_valid(
    contract: MultisigContractView,
    names: Seq<String>,
    required_amount: nat,
    approval_ratio: Ratio,
    destination: Seq<char>,
)
    requires
        contract.valid(),
        validation_error(names.len(), required_amount, approval_ratio) is None,
    ensures
        contract.after_create(
            named_accounts(names),
            required_amount,
            approval_ratio,
            destination,
        ).valid(),
{
    lemma_opened_is_valid(contract.next_id, names, required_amount, approval_ratio, destination);
}

/// The id given to a new record was in use by no record before, and the
/// records that were there are still there, unchanged.
pub proof fn lemma_created_id_is_fresh(
    contract: MultisigContractView,
    accounts: Set<Seq<char>>,
    required_amount: nat,
    approval_ratio: Ratio,
    destination: Seq<char>,
    earlier: nat,
)
    requires
        contract.valid(),
    ensures
        contract.lookup(contract.next_id) is None,
        contract.after_create(accounts, required_amount, approval_ratio, destination).lookup(
            contract.next_id,
        ) is Some,
        earlier != contract.next_id ==> contract.after_create(
            accounts,
            required_amount,
            approval_ratio,
            destination,
        ).lookup(earlier) == contract.lookup(earlier),
{
}

/// Ids strictly increase from one creation to the next, whatever is
/// approved in between: the id of the later record is greater than the id
/// of the earlier one.
pub proof fn lemma_ids_strictly_increase(
    contract: MultisigContractView,
    accounts: Set<Seq<char>>,
    required_amount: nat,
    approval_ratio: Ratio,
    destination: Seq<char>,
    approved_id: nat,
    caller: Seq<char>,
    attached_amount: nat,
)
    ensures
        contract.next_id < contract.after_create(
            accounts,
            required_amount,
            approval_ratio,
            destination,
        ).next_id,
        contract.after_approve(approved_id, caller, attached_amount).next_id == contract.next_id,
{
}

/// A registry stays valid under every submission of an approval.
pub proof fn lemma_registry_approve_preserves_valid(
    contract: MultisigContractView,
    id: nat,
    caller: Seq<char>,
    attached_amount: nat,
)
    requires
        contract.valid(),
    ensures
        contract.after_approve(id, caller, attached_amount).valid(),
{
    if contract.multisigs.contains_key(id) {
        lemma_approve_preserves_valid(contract.multisigs[id], caller, attached_amount);
        lemma_approve_keeps_terms(contract.multisigs[id], caller, attached_amount);
    }
}

/// The registry decides as the record does: for an id in use, a
/// submission is turned down for the record's own reason, and the record
/// kept under that id afterwards is what the record becomes. For an id not
/// in use the reason is `NotFound`, and nothing changes.
pub proof fn lemma_registry_follows_record(
    contract: MultisigContractView,
    id: nat,
    caller: Seq<char>,
    attached_amount: nat,
)
    ensures
        contract.lookup(id) is Some ==> contract.approve_error(id, caller, attached_amount)
            == contract.multisigs[id].approve_error(caller, attached_amount),
        contract.lookup(id) is Some ==> contract.after_approve(id, caller, attached_amount).lookup(
            id,
        ) == Some(contract.multisigs[id].after_approve(caller, attached_amount)),
        contract.lookup(id) is None ==> contract.approve_error(id, caller, attached_amount) == Some(
            EscrowError::NotFound,
        ),
        contract.lookup(id) is None ==> contract.after_approve(id, caller, attached_amount)
            == contract,
{
}

/// An approval for one record leaves every other record as it was, and a
/// submission that is turned down leaves the whole registry as it was.
pub proof fn lemma_approve_touches_one_record(
    contract: MultisigContractView,
    id: nat,
    caller: Seq<char>,
    attached_amount: nat,
    other: nat,
)
    ensures
        other != id ==> contract.after_approve(id, caller, attached_amount).lookup(other)
            == contract.lookup(other),
        contract.approve_error(id, caller, attached_amount) is Some ==> contract.after_approve(
            id,
            caller,
            attached_amount,
        ) == contract,
{
    if contract.multisigs.contains_key(id) && contract.approve_error(id, caller, attached_amount)
        is Some {
        assert(contract.multisigs.insert(id, contract.multisigs[id]) =~= contract.multisigs);
    }
}

} // verus!
