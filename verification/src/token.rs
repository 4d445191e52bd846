//! A fungible-token ledger: balances per account and payments between them.
use vstd::prelude::*;
use crate::auth::Authorization;
use crate::types::{Address, MarketError};

verus! {

/// One account of a ledger and the funds it holds.
#[derive(Clone, Copy, Debug, PartialEq, Eq, Structural)]
pub struct Account {
    pub holder: Address,
    pub funds: i128,
}

/// The funds that the latest entry for `who` records, zero where there is none.
pub open spec fn funds_of(accounts: Seq<Account>, who: Address) -> int
    decreases accounts.len(),
{
    if accounts.len() == 0 {
        0
    } else if accounts.last().holder == who {
        accounts.last().funds as int
    } else {
        funds_of(accounts.drop_last(), who)
    }
}

/// Balances after moving `amount` from `from` to `to`, or the refusal.
///
/// A payment is refused when the sender has not authorized it (`authorized`
/// says whether it has), when the amount is negative or exceeds the sender's
/// balance, and when the receiver's balance would leave the range of `i128`.
pub open spec fn payment_outcome(
    balances: Map<Address, int>,
    authorized: bool,
    from: Address,
    to: Address,
    amount: int,
) -> Result<Map<Address, int>, MarketError> {
    if !authorized {
        Err(MarketError::Unauthorized)
    } else if amount < 0 || balances[from] < amount {
        Err(MarketError::InsufficientBalance)
    } else if from == to {
        Ok(balances)
    } else if balances[to] + amount > i128::MAX {
        Err(MarketError::BalanceOverflow)
    } else {
        Ok(balances.insert(from, balances[from] - amount).insert(to, balances[to] + amount))
    }
}

/// A ledger of one asset.
pub struct TokenLedger {
    /// The accounts in order of opening; the latest entry of a holder counts.
    pub accounts: Vec<Account>,
}

impl View for TokenLedger {
    type V = Map<Address, int>;

    /// The balance of every address; an address without an account holds zero.
    open spec fn view(&self) -> Map<Address, int> {
        Map::total(|who: Address| funds_of(self.accounts@, who))
    }
}

proof fn lemma_absent_holds_nothing(accounts: Seq<Account>, who: Address)
    requires
        forall|j: int| 0 <= j < accounts.len() ==> accounts[j].holder != who,
    ensures
        funds_of(accounts, who) == 0,
    decreases accounts.len(),
{
    if accounts.len() > 0 {
        lemma_absent_holds_nothing(accounts.drop_last(), who);
    }
}

proof fn lemma_funds_after_update(accounts: Seq<Account>, i: int, funds: i128, who: Address)
    requires
        0 <= i < accounts.len(),
        forall|j: int| i < j < accounts.len() ==> accounts[j].holder != accounts[i].holder,
    ensures
        funds_of(accounts.update(i, Account { holder: accounts[i].holder, funds }), who) == (if who
            == accounts[i].holder {
            funds as int
        } else {
            funds_of(accounts, who)
        }),
    decreases accounts.len(),
{
    let entry = Account { holder: accounts[i].holder, funds };
    let after = accounts.update(i, entry);
    if i == accounts.len() - 1 {
        assert(after.drop_last() =~= accounts.drop_last());
    } else {
        assert(after.drop_last() =~= accounts.drop_last().update(i, entry));
        lemma_funds_after_update(accounts.drop_last(), i, funds, who);
    }
}

impl TokenLedger {
    /// The balance of `who`.
    pub open spec fn spec_balance(&self, who: Address) -> i128 {
        funds_of(self.accounts@, who) as i128
    }

    /// A ledger on which nobody holds anything.
    pub fn new() -> (ledger: TokenLedger)
        ensures
            forall|who: Address| ledger@[who] == 0,
    {
        TokenLedger { accounts: Vec::new() }
    }

    /// The index of the entry that counts for `who`, if there is one.
    fn find(&self, who: Address) -> (found: Option<usize>)
        ensures
            match found {
                Some(i) => i < self.accounts@.len() && self.accounts@[i as int].holder == who
                    && (forall|j: int|
                    i < j < self.accounts@.len() ==> self.accounts@[j].holder != who)
                    && funds_of(self.accounts@, who) == self.accounts@[i as int].funds,
                None => (forall|j: int|
                    0 <= j < self.accounts@.len() ==> self.accounts@[j].holder != who) && funds_of(
                    self.accounts@,
                    who,
                ) == 0,
            },
    {
        let mut i: usize = self.accounts.len();
        while i > 0
            invariant
                i <= self.accounts@.len(),
                forall|j: int| i <= j < self.accounts@.len() ==> self.accounts@[j].holder != who,
            decreases i,
        {
            i -= 1;
            if self.accounts[i].holder == who {
                proof {
                    let entry = self.accounts@[i as int];
                    lemma_funds_after_update(self.accounts@, i as int, entry.funds, who);
                    assert(self.accounts@.update(i as int, entry) =~= self.accounts@);
                }
                return Some(i);
            }
        }
        proof {
            lemma_absent_holds_nothing(self.accounts@, who);
        }
        None
    }

    /// Records `funds` as the balance of `who`.
    fn put(&mut self, who: Address, funds: i128)
        ensures
            final(self)@ == old(self)@.insert(who, funds as int),
    {
        let found = self.find(who);
        let ghost before = self.accounts@;
        match found {
            Some(i) => {
                self.accounts.set(i, Account { holder: who, funds });
                assert forall|other: Address|
                    funds_of(self.accounts@, other) == (if other == who {
                        funds as int
                    } else {
                        funds_of(before, other)
                    }) by {
                    lemma_funds_after_update(before, i as int, funds, other);
                }
            },
            None => {
                self.accounts.push(Account { holder: who, funds });
                assert(self.accounts@.drop_last() =~= before);
            },
        }
        assert(self@ =~= old(self)@.insert(who, funds as int));
    }

    #[verifier::when_used_as_spec(spec_balance)]
    pub fn balance(&self, who: Address) -> (funds: i128)
        ensures
            funds == self@[who],
            funds == self.spec_balance(who),
    {
        match self.find(who) {
            Some(i) => self.accounts[i].funds,
            None => 0,
        }
    }

    /// Whether a payment in a call made by `invoker` would go through, and
    /// why not.
    pub fn check_payment(
        &self,
        auth: &Authorization,
        invoker: Address,
        from: Address,
        to: Address,
        amount: i128,
    ) -> (r: Result<(), MarketError>)
        ensures
            match payment_outcome(self@, auth.spec_covers(invoker, from), from, to, amount as int) {
                Ok(_) => r == Ok::<(), MarketError>(()),
                Err(e) => r == Err::<(), MarketError>(e),
            },
    {
        if !auth.covers(invoker, from) {
            return Err(MarketError::Unauthorized);
        }
        let held = self.balance(from);
        if amount < 0 || held < amount {
            Err(MarketError::InsufficientBalance)
        } else if from == to {
            Ok(())
        } else if self.balance(to) > i128::MAX - amount {
            Err(MarketError::BalanceOverflow)
        } else {
            Ok(())
        }
    }

    /// Issues `amount` to `to`, as the asset's issuer does outside any call
    /// of the marketplace. Refused when the amount is negative or the balance
    /// would overflow.
    pub fn mint(&mut self, to: Address, amount: i128) -> (r: Result<(), MarketError>)
        ensures
            r is Ok <==> 0 <= amount && old(self)@[to] + amount <= i128::MAX,
            r is Ok ==> final(self)@ == old(self)@.insert(to, old(self)@[to] + amount),
            r is Err ==> final(self)@ == old(self)@ && r == Err::<(), MarketError>(
                if amount < 0 {
                    MarketError::InsufficientBalance
                } else {
                    MarketError::BalanceOverflow
                },
            ),
    {
        if amount < 0 {
            return Err(MarketError::InsufficientBalance);
        }
        let held = self.balance(to);
        if held > i128::MAX - amount {
            return Err(MarketError::BalanceOverflow);
        }
        self.put(to, held + amount);
        Ok(())
    }

    /// Moves `amount` from `from` to `to` in a call made by `invoker`, or
    /// refuses and changes nothing. The sender must be the invoker or have
    /// consented.
    pub fn transfer(
        &mut self,
        auth: &Authorization,
        invoker: Address,
        from: Address,
        to: Address,
        amount: i128,
    ) -> (r: Result<(), MarketError>)
        ensures
            match payment_outcome(
                old(self)@,
                auth.spec_covers(invoker, from),
                from,
                to,
                amount as int,
            ) {
                Ok(balances) => r == Ok::<(), MarketError>(()) && final(self)@ == balances,
                Err(e) => r == Err::<(), MarketError>(e) && final(self)@ == old(self)@,
            },
    {
        if !auth.covers(invoker, from) {
            return Err(MarketError::Unauthorized);
        }
        let held = self.balance(from);
        if amount < 0 || held < amount {
            return Err(MarketError::InsufficientBalance);
        }
        if from == to {
            return Ok(());
        }
        let received = self.balance(to);
        if received > i128::MAX - amount {
            return Err(MarketError::BalanceOverflow);
        }
        self.put(from, held - amount);
        self.put(to, received + amount);
        Ok(())
    }
}

} // verus!
