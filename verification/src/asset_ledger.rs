//! An asset ledger: the balance of every account, and transfers between
//! accounts that either happen in full or not at all.

use crate::address::Address;
use crate::keyed::{entries_map, lemma_entries_absent, lemma_entries_latest, lemma_entries_overwrite,
    lemma_entries_push};
use vstd::prelude::*;

verus! {

/// Why the ledger refused to move an amount.
#[derive(Clone, Copy, Debug, PartialEq, Eq)]
pub enum LedgerError {
    /// The amount is below zero.
    NegativeAmount,
    /// The paying account holds less than the amount.
    InsufficientBalance,
    /// The receiving account's balance would no longer fit.
    BalanceOverflow,
}

/// The balances of a ledger: every account has one, zero unless it was credited.
pub type Balances = Map<Seq<u8>, int>;

/// How a transfer of `amount` from `from` to `to` ends on the given balances.
/// The amount is tested first, then what `from` holds, then whether `to` has
/// room for it.
pub open spec fn transfer_outcome(balances: Balances, from: Seq<u8>, to: Seq<u8>, amount: int)
    -> Result<(), LedgerError> {
    if amount < 0 {
        Err(LedgerError::NegativeAmount)
    } else if balances[from] < amount {
        Err(LedgerError::InsufficientBalance)
    } else if from != to && balances[to] + amount > i128::MAX {
        Err(LedgerError::BalanceOverflow)
    } else {
        Ok(())
    }
}

/// The balances after `amount` has left `from` and reached `to`.
pub open spec fn moved(balances: Balances, from: Seq<u8>, to: Seq<u8>, amount: int) -> Balances {
    if from == to {
        balances
    } else {
        balances.insert(from, balances[from] - amount).insert(to, balances[to] + amount)
    }
}

/// The balances after a transfer: moved if it succeeds, the same if it fails.
pub open spec fn after_transfer(balances: Balances, from: Seq<u8>, to: Seq<u8>, amount: int)
    -> Balances {
    if transfer_outcome(balances, from, to, amount) is Ok {
        moved(balances, from, to, amount)
    } else {
        balances
    }
}

/// How the creation of `amount` on the account `to` ends.
pub open spec fn mint_outcome(balances: Balances, to: Seq<u8>, amount: int) -> Result<
    (),
    LedgerError,
> {
    if amount < 0 {
        Err(LedgerError::NegativeAmount)
    } else if balances[to] + amount > i128::MAX {
        Err(LedgerError::BalanceOverflow)
    } else {
        Ok(())
    }
}

/// The balances after the creation of `amount` on the account `to`.
pub open spec fn after_mint(balances: Balances, to: Seq<u8>, amount: int) -> Balances {
    if mint_outcome(balances, to, amount) is Ok {
        balances.insert(to, balances[to] + amount)
    } else {
        balances
    }
}

/// The balances in which every account holds nothing.
pub open spec fn no_balances() -> Balances {
    Map::total(|owner: Seq<u8>| 0int)
}

/// Whether no account holds less than nothing or more than the ledger's
/// amounts can express.
pub open spec fn balances_in_range(balances: Balances) -> bool {
    forall|owner: Seq<u8>| 0 <= #[trigger] balances[owner] <= i128::MAX
}

/// What one account holds.
pub struct Account {
    owner: Address,
    balance: i128,
}

impl View for Account {
    type V = (Seq<u8>, int);

    closed spec fn view(&self) -> (Seq<u8>, int) {
        (self.owner@, self.balance as int)
    }
}

impl Clone for Account {
    fn clone(&self) -> (copy: Self)
        ensures
            copy@ == self@,
    {
        Account { owner: self.owner.clone(), balance: self.balance }
    }
}

/// The entries that a list of accounts stands for.
spec fn account_entries(accounts: Seq<Account>) -> Seq<(Seq<u8>, int)> {
    accounts.map_values(|a: Account| a@)
}

/// The balances that a list of accounts stands for.
spec fn account_balances(accounts: Seq<Account>) -> Balances {
    let held = entries_map(account_entries(accounts));
    Map::total(
        |owner: Seq<u8>|
            if held.contains_key(owner) {
                held[owner]
            } else {
                0int
            },
    )
}

/// The ledger of an asset.
pub struct AssetLedger {
    accounts: Vec<Account>,
}

impl View for AssetLedger {
    type V = Balances;

    closed spec fn view(&self) -> Balances {
        account_balances(self.accounts@)
    }
}

impl Clone for AssetLedger {
    fn clone(&self) -> (copy: Self)
        ensures
            copy@ == self@,
    {
        let accounts = self.accounts.clone();
        assert(account_entries(accounts@) =~= account_entries(self.accounts@));
        AssetLedger { accounts }
    }
}

impl AssetLedger {
    /// A ledger on which every account holds nothing.
    pub fn new() -> (ledger: AssetLedger)
        ensures
            ledger@ == no_balances(),
    {
        let ledger = AssetLedger { accounts: Vec::new() };
        assert(ledger@ =~= no_balances());
        ledger
    }

    /// Where the account of `owner` stands, if it was ever credited.
    fn position(&self, owner: &Address) -> (at: Option<usize>)
        ensures
            match at {
                Some(j) => {
                    &&& j < self.accounts@.len()
                    &&& self.accounts@[j as int].owner@ == owner@
                    &&& self.accounts@[j as int].balance == self@[owner@]
                    &&& forall|i: int|
                        j < i < self.accounts@.len() ==> self.accounts@[i].owner@ != owner@
                },
                None => self@[owner@] == 0 && forall|i: int|
                    0 <= i < self.accounts@.len() ==> self.accounts@[i].owner@ != owner@,
            },
    {
        let mut i: usize = self.accounts.len();
        while i > 0
            invariant
                0 <= i <= self.accounts@.len(),
                forall|j: int| i <= j < self.accounts@.len() ==> self.accounts@[j].owner@ != owner@,
            decreases i,
        {
            i -= 1;
            if self.accounts[i].owner.same_as(owner) {
                proof {
                    lemma_entries_latest(account_entries(self.accounts@), i as int);
                }
                return Some(i);
            }
        }
        proof {
            lemma_entries_absent(account_entries(self.accounts@), owner@);
        }
        None
    }

    /// Sets what `owner` holds; `at` is where its account stands.
    fn put(&mut self, owner: &Address, at: Option<usize>, balance: i128)
        requires
            match at {
                Some(j) => {
                    &&& j < old(self).accounts@.len()
                    &&& old(self).accounts@[j as int].owner@ == owner@
                    &&& forall|i: int|
                        j < i < old(self).accounts@.len() ==> old(self).accounts@[i].owner@
                            != owner@
                },
                None => true,
            },
        ensures
            final(self)@ == old(self)@.insert(owner@, balance as int),
    {
        let ghost before = account_entries(self.accounts@);
        match at {
            Some(j) => {
                self.accounts[j].balance = balance;
                proof {
                    lemma_entries_overwrite(before, j as int, balance as int);
                    assert(account_entries(self.accounts@) =~= before.update(
                        j as int,
                        (owner@, balance as int),
                    ));
                }
            },
            None => {
                let account = Account { owner: owner.clone(), balance };
                self.accounts.push(account);
                proof {
                    lemma_entries_push(before, owner@, balance as int);
                    assert(account_entries(self.accounts@) =~= before.push(
                        (owner@, balance as int),
                    ));
                }
            },
        }
        assert(self@ =~= old(self)@.insert(owner@, balance as int));
    }

    /// What `owner` holds.
    pub fn balance(&self, owner: &Address) -> (held: i128)
        ensures
            held == self@[owner@],
    {
        match self.position(owner) {
            Some(at) => self.accounts[at].balance,
            None => 0,
        }
    }

    /// Creates `amount` on the account `to`. An amount below zero, or one that
    /// the account has no room for, is refused and changes nothing.
    pub fn mint(&mut self, to: &Address, amount: i128) -> (outcome: Result<(), LedgerError>)
        ensures
            outcome == mint_outcome(old(self)@, to@, amount as int),
            final(self)@ == after_mint(old(self)@, to@, amount as int),
    {
        if amount < 0 {
            return Err(LedgerError::NegativeAmount);
        }
        let at = self.position(to);
        let held: i128 = match at {
            Some(j) => self.accounts[j].balance,
            None => 0,
        };
        if held > i128::MAX - amount {
            return Err(LedgerError::BalanceOverflow);
        }
        self.put(to, at, held + amount);
        Ok(())
    }

    /// Moves `amount` from `from` to `to`, in full or not at all.
    ///
    /// Refused, with nothing changed: an amount below zero
    /// (`NegativeAmount`), more than `from` holds (`InsufficientBalance`), and
    /// more than `to` has room for (`BalanceOverflow`).
    pub fn transfer(&mut self, from: &Address, to: &Address, amount: i128) -> (outcome: Result<
        (),
        LedgerError,
    >)
        ensures
            outcome == transfer_outcome(old(self)@, from@, to@, amount as int),
            final(self)@ == after_transfer(old(self)@, from@, to@, amount as int),
    {
        if amount < 0 {
            return Err(LedgerError::NegativeAmount);
        }
        let from_at = self.position(from);
        let from_held: i128 = match from_at {
            Some(j) => self.accounts[j].balance,
            None => 0,
        };
        if from_held < amount {
            return Err(LedgerError::InsufficientBalance);
        }
        if from.same_as(to) {
            return Ok(());
        }
        let to_held: i128 = self.balance(to);
        if to_held > i128::MAX - amount {
            return Err(LedgerError::BalanceOverflow);
        }
        self.put(from, from_at, from_held - amount);
        let to_at = self.position(to);
        self.put(to, to_at, to_held + amount);
        Ok(())
    }

    /// Every balance on a ledger fits the ledger's amounts.
    pub proof fn law_balances_fit(&self)
        ensures
            forall|owner: Seq<u8>| i128::MIN <= #[trigger] self@[owner] <= i128::MAX,
    {
        assert forall|owner: Seq<u8>| i128::MIN <= #[trigger] self@[owner] <= i128::MAX by {
            lemma_entry_fits(self.accounts@, owner);
        }
    }
}

/// Every value in the map of a list of accounts is the balance of an account.
proof fn lemma_entry_fits(accounts: Seq<Account>, owner: Seq<u8>)
    ensures
        i128::MIN <= account_balances(accounts)[owner] <= i128::MAX,
    decreases accounts.len(),
{
    let entries = account_entries(accounts);
    if accounts.len() > 0 {
        assert(entries.drop_last() =~= account_entries(accounts.drop_last()));
        lemma_entry_fits(accounts.drop_last(), owner);
    }
}

/// A transfer between two accounts keeps what the two hold together, and
/// touches no other account.
pub proof fn law_transfer_conserves(
    balances: Balances,
    from: Seq<u8>,
    to: Seq<u8>,
    amount: int,
    other: Seq<u8>,
)
    requires
        other != from,
        other != to,
    ensures
        ({
            let after = after_transfer(balances, from, to, amount);
            &&& after[other] == balances[other]
            &&& from != to ==> after[from] + after[to] == balances[from] + balances[to]
            &&& from == to ==> after[from] == balances[from]
        }),
{
}

/// On balances that are in range, a transfer leaves them in range.
pub proof fn law_transfer_keeps_range(balances: Balances, from: Seq<u8>, to: Seq<u8>, amount: int)
    requires
        balances_in_range(balances),
    ensures
        balances_in_range(after_transfer(balances, from, to, amount)),
{
}

} // verus!
