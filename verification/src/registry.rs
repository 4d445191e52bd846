//! The token registry: who owns which non-fungible token.
use vstd::prelude::*;
use crate::auth::Authorization;
use crate::types::{Address, MarketError, Transfer};

verus! {

/// Ownership of tokens after a transfer, or the refusal.
///
/// The transfer goes through exactly when `t.from` has authorized it and
/// owns the token; `authorized` says whether it has.
pub open spec fn transfer_outcome(owners: Seq<Address>, authorized: bool, t: Transfer) -> Result<
    Seq<Address>,
    MarketError,
> {
    if !authorized {
        Err(MarketError::Unauthorized)
    } else if t.token_id < owners.len() && owners[t.token_id as int] == t.from {
        Ok(owners.update(t.token_id as int, t.to))
    } else {
        Err(MarketError::NotOwner)
    }
}

/// An ownership registry. Token ids are assigned in minting order from zero.
pub struct NftRegistry {
    /// The owner of token `i` at index `i`.
    pub owners: Vec<Address>,
}

impl View for NftRegistry {
    type V = Seq<Address>;

    open spec fn view(&self) -> Seq<Address> {
        self.owners@
    }
}

impl NftRegistry {
    /// The owner of a token, if it has been minted.
    pub open spec fn spec_owner_of(&self, token_id: u64) -> Option<Address> {
        if token_id < self@.len() {
            Some(self@[token_id as int])
        } else {
            None
        }
    }

    /// A registry without tokens.
    pub fn new() -> (registry: NftRegistry)
        ensures
            registry@ == Seq::<Address>::empty(),
    {
        NftRegistry { owners: Vec::new() }
    }

    /// Creates the next token for `to` and returns its id.
    pub fn mint(&mut self, to: Address) -> (token_id: u64)
        ensures
            token_id == old(self)@.len(),
            final(self)@ == old(self)@.push(to),
    {
        let token_id: u64 = self.owners.len() as u64;
        self.owners.push(to);
        token_id
    }

    #[verifier::when_used_as_spec(spec_owner_of)]
    pub fn owner_of(&self, token_id: u64) -> (owner: Option<Address>)
        ensures
            owner == self.spec_owner_of(token_id),
    {
        if token_id < self.owners.len() as u64 {
            Some(self.owners[token_id as usize])
        } else {
            None
        }
    }

    /// Moves a token to a new owner in a call made by `invoker`, if the
    /// sender is the invoker or has consented, and owns the token.
    pub fn transfer(&mut self, auth: &Authorization, invoker: Address, t: Transfer) -> (r: Result<
        (),
        MarketError,
    >)
        ensures
            match transfer_outcome(old(self)@, auth.spec_covers(invoker, t.from), t) {
                Ok(owners) => r == Ok::<(), MarketError>(()) && final(self)@ == owners,
                Err(e) => r == Err::<(), MarketError>(e) && final(self)@ == old(self)@,
            },
    {
        if !auth.covers(invoker, t.from) {
            return Err(MarketError::Unauthorized);
        }
        if token_id_in_range(t.token_id, self.owners.len()) && self.owners[t.token_id as usize]
            == t.from {
            self.owners.set(t.token_id as usize, t.to);
            Ok(())
        } else {
            Err(MarketError::NotOwner)
        }
    }
}

fn token_id_in_range(token_id: u64, len: usize) -> (r: bool)
    ensures
        r == (token_id < len),
{
    token_id < len as u64
}

} // verus!
