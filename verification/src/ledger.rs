//! The approval ledger of one record: who takes part, and who has approved.
//!
//! In memory the ledger is a list of entries in which no account occurs
//! twice. Its meaning is the map from each account to its approval flag;
//! this module relates the two.

use vstd::prelude::*;

verus! {

/// One participant of a record and whether they have approved.
#[derive(Debug)]
pub struct Participant {
    pub account: String,
    pub approved: bool,
}

/// No account occurs twice among the entries.
pub open spec fn distinct_accounts(entries: Seq<Participant>) -> bool {
    forall|i: int, j: int|
        0 <= i < j < entries.len() ==> entries[i].account@ != entries[j].account@
}

/// Some entry is for `account`.
pub open spec fn has_account(entries: Seq<Participant>, account: Seq<char>) -> bool {
    exists|i: int| 0 <= i < entries.len() && #[trigger] entries[i].account@ == account
}

/// The map from account to approval flag that the entries stand for.
/// Where an account occurs more than once, its last entry counts.
pub open spec fn ledger_of(entries: Seq<Participant>) -> Map<Seq<char>, bool>
    decreases entries.len(),
{
    if entries.len() == 0 {
        Map::empty()
    } else {
        ledger_of(entries.drop_last()).insert(entries.last().account@, entries.last().approved)
    }
}

/// How many entries carry an approval.
pub open spec fn approved_entries(entries: Seq<Participant>) -> nat
    decreases entries.len(),
{
    if entries.len() == 0 {
        0
    } else {
        approved_entries(entries.drop_last()) + if entries.last().approved {
            1nat
        } else {
            0nat
        }
    }
}

/// The accounts of a ledger whose flag is set.
pub open spec fn approvers(ledger: Map<Seq<char>, bool>) -> Set<Seq<char>> {
    Set::new(|account: Seq<char>| ledger.contains_key(account) && ledger[account])
}

/// The ledger in which each of `accounts` takes part and nobody has approved.
pub open spec fn fresh_ledger(accounts: Set<Seq<char>>) -> Map<Seq<char>, bool> {
    Map::new(|account: Seq<char>| accounts.contains(account), |account: Seq<char>| false)
}

/// The accounts that `names` name, each once however often it is named.
pub open spec fn named_accounts(names: Seq<String>) -> Set<Seq<char>> {
    Set::new(
        |account: Seq<char>| exists|i: int| 0 <= i < names.len() && #[trigger] names[i]@ == account,
    )
}

/// A list of names names finitely many accounts, at most one per name, and
/// at least one unless the list is empty.
pub proof fn lemma_named_accounts(names: Seq<String>)
    ensures
        named_accounts(names).finite(),
        named_accounts(names).len() <= names.len(),
        names.len() > 0 ==> named_accounts(names).len() > 0,
    decreases names.len(),
{
    if names.len() == 0 {
        assert(named_accounts(names) =~= Set::empty());
    } else {
        let init = names.drop_last();
        lemma_named_accounts(init);
        lemma_named_accounts_grow(init, names.last());
        assert(init.push(names.last()) =~= names);
    }
}

/// One more name adds its account to the accounts named so far.
pub proof fn lemma_named_accounts_grow(names: Seq<String>, name: String)
    ensures
        named_accounts(names.push(name)) == named_accounts(names).insert(name@),
{
    let longer = names.push(name);
    assert forall|account: Seq<char>| named_accounts(longer).contains(account) implies named_accounts(
        names,
    ).insert(name@).contains(account) by {
        let i = choose|i: int| 0 <= i < longer.len() && #[trigger] longer[i]@ == account;
        if i < names.len() {
            assert(names[i]@ == account);
        }
    }
    assert forall|account: Seq<char>| named_accounts(names).insert(name@).contains(
        account,
    ) implies named_accounts(longer).contains(account) by {
        if account == name@ {
            assert(longer[names.len() as int]@ == account);
        } else {
            let i = choose|i: int| 0 <= i < names.len() && #[trigger] names[i]@ == account;
            assert(longer[i]@ == account);
        }
    }
    assert(named_accounts(longer) =~= named_accounts(names).insert(name@));
}

/// The keys of the ledger are exactly the accounts of the entries.
pub proof fn lemma_ledger_keys(entries: Seq<Participant>)
    ensures
        forall|account: Seq<char>|
            #![trigger ledger_of(entries).contains_key(account)]
            #![trigger has_account(entries, account)]
            ledger_of(entries).contains_key(account) <==> has_account(entries, account),
        ledger_of(entries).dom().finite(),
    decreases entries.len(),
{
    if entries.len() > 0 {
        let init = entries.drop_last();
        lemma_ledger_keys(init);
        assert forall|account: Seq<char>|
            ledger_of(entries).contains_key(account) <==> has_account(entries, account) by {
            if has_account(entries, account) {
                let i = choose|i: int| 0 <= i < entries.len() && #[trigger] entries[i].account@ == account;
                if i < entries.len() - 1 {
                    assert(init[i].account@ == account);
                }
            }
            if ledger_of(entries).contains_key(account) {
                if entries.last().account@ == account {
                    assert(entries[entries.len() - 1].account@ == account);
                } else {
                    assert(ledger_of(init).contains_key(account));
                    assert(has_account(init, account));
                    let i = choose|i: int| 0 <= i < init.len() && #[trigger] init[i].account@ == account;
                    assert(entries[i].account@ == account);
                }
            }
        }
    }
}

/// With distinct accounts, each entry's flag is what the ledger holds for
/// its account, the ledger has as many keys as there are entries, and as
/// many approvers as there are entries with an approval.
pub proof fn lemma_ledger_of_distinct(entries: Seq<Participant>)
    requires
        distinct_accounts(entries),
    ensures
        forall|i: int|
            0 <= i < entries.len() ==> ledger_of(entries).contains_key(#[trigger] entries[i].account@)
                && ledger_of(entries)[entries[i].account@] == entries[i].approved,
        ledger_of(entries).dom().finite(),
        ledger_of(entries).dom().len() == entries.len(),
        approvers(ledger_of(entries)).finite(),
        approvers(ledger_of(entries)).len() == approved_entries(entries),
    decreases entries.len(),
{
    lemma_ledger_keys(entries);
    if entries.len() == 0 {
        assert(approvers(ledger_of(entries)) =~= Set::empty());
    } else {
        let init = entries.drop_last();
        let last = entries.last();
        lemma_ledger_of_distinct(init);
        lemma_ledger_keys(init);
        if has_account(init, last.account@) {
            let i = choose|i: int| 0 <= i < init.len() && #[trigger] init[i].account@ == last.account@;
            assert(entries[i].account@ == entries[entries.len() - 1].account@);
        }
        assert(!ledger_of(init).contains_key(last.account@));
        assert(ledger_of(entries).dom() =~= ledger_of(init).dom().insert(last.account@));
        assert forall|i: int| 0 <= i < entries.len() implies ledger_of(entries).contains_key(
            #[trigger] entries[i].account@,
        ) && ledger_of(entries)[entries[i].account@] == entries[i].approved by {
            if i < entries.len() - 1 {
                assert(init[i].account@ == entries[i].account@);
            }
        }
        if last.approved {
            assert(approvers(ledger_of(entries)) =~= approvers(ledger_of(init)).insert(last.account@));
        } else {
            assert(approvers(ledger_of(entries)) =~= approvers(ledger_of(init)));
        }
    }
}

/// Setting the flag of one entry sets the flag of its account in the ledger
/// and changes nothing else.
pub proof fn lemma_ledger_after_update(entries: Seq<Participant>, i: int, entry: Participant)
    requires
        distinct_accounts(entries),
        0 <= i < entries.len(),
        entry.account@ == entries[i].account@,
    ensures
        distinct_accounts(entries.update(i, entry)),
        ledger_of(entries.update(i, entry)) == ledger_of(entries).insert(
            entry.account@,
            entry.approved,
        ),
{
    let updated = entries.update(i, entry);
    assert(distinct_accounts(updated)) by {
        assert forall|a: int, b: int| 0 <= a < b < updated.len() implies updated[a].account@
            != updated[b].account@ by {
            assert(entries[a].account@ != entries[b].account@);
        }
    }
    lemma_ledger_of_distinct(entries);
    lemma_ledger_of_distinct(updated);
    lemma_ledger_keys(entries);
    lemma_ledger_keys(updated);
    let expected = ledger_of(entries).insert(entry.account@, entry.approved);
    assert forall|account: Seq<char>| ledger_of(updated).contains_key(account) implies
        expected.contains_key(account) && ledger_of(updated)[account] == expected[account] by {
        assert(has_account(updated, account));
        let j = choose|j: int| 0 <= j < updated.len() && #[trigger] updated[j].account@ == account;
        assert(entries[j].account@ == account);
        if j != i {
            assert(updated[j] == entries[j]);
        }
    }
    assert forall|account: Seq<char>| expected.contains_key(account) implies ledger_of(
        updated,
    ).contains_key(account) by {
        if account == entry.account@ {
            assert(updated[i].account@ == account);
        } else {
            assert(ledger_of(entries).contains_key(account));
            assert(has_account(entries, account));
            let j = choose|j: int| 0 <= j < entries.len() && #[trigger] entries[j].account@ == account;
            assert(updated[j].account@ == account);
        }
    }
    assert(ledger_of(updated) =~= expected);
}

/// Finds the entry of `account`.
///
/// Returns the index of the first entry whose account is `account`, or
/// `None` where there is no such entry.
pub fn position_of(entries: &Vec<Participant>, account: &String) -> (found: Option<usize>)
    ensures
        match found {
            Some(i) => i < entries@.len() && entries@[i as int].account@ == account@ && forall|j: int|
                0 <= j < i ==> entries@[j].account@ != account@,
            None => !has_account(entries@, account@),
        },
{
    let mut i: usize = 0;
    while i < entries.len()
        invariant
            i <= entries@.len(),
            forall|j: int| 0 <= j < i ==> entries@[j].account@ != account@,
        decreases entries@.len() - i,
    {
        if entries[i].account == *account {
            return Some(i);
        }
        i += 1;
    }
    None
}

/// Counts the entries that carry an approval.
pub fn count_approved(entries: &Vec<Participant>) -> (count: usize)
    ensures
        count == approved_entries(entries@),
{
    let mut count: usize = 0;
    let mut i: usize = 0;
    while i < entries.len()
        invariant
            i <= entries@.len(),
            count <= i,
            count == approved_entries(entries@.take(i as int)),
        decreases entries@.len() - i,
    {
        proof {
            assert(entries@.take(i + 1).drop_last() =~= entries@.take(i as int));
        }
        if entries[i].approved {
            count += 1;
        }
        i += 1;
    }
    proof {
        assert(entries@.take(i as int) =~= entries@);
    }
    count
}

} // verus!
