//! The authorization gate: which addresses have consented to the current call.
use vstd::prelude::*;
use crate::types::{Address, MarketError};

verus! {

/// The consent attached to one invocation.
pub struct Authorization {
    /// Every address is taken to have consented.
    pub everyone: bool,
    /// The addresses that have consented individually.
    pub signers: Vec<Address>,
}

impl Authorization {
    /// Whether `who` has consented to the call.
    pub open spec fn spec_permits(&self, who: Address) -> bool {
        self.everyone || self.signers@.contains(who)
    }

    /// Whether `who` may act in a call that `invoker` makes: a caller acts
    /// in its own name, anyone else needs to have consented.
    pub open spec fn spec_covers(&self, invoker: Address, who: Address) -> bool {
        who == invoker || self.spec_permits(who)
    }

    /// Consent of nobody.
    pub fn nobody() -> (auth: Authorization)
        ensures
            forall|who: Address| !auth.spec_permits(who),
    {
        Authorization { everyone: false, signers: Vec::new() }
    }

    /// Consent of every address.
    pub fn all() -> (auth: Authorization)
        ensures
            forall|who: Address| auth.spec_permits(who),
    {
        Authorization { everyone: true, signers: Vec::new() }
    }

    /// Consent of `signer` alone.
    pub fn only(signer: Address) -> (auth: Authorization)
        ensures
            forall|who: Address| auth.spec_permits(who) <==> who == signer,
    {
        let mut signers: Vec<Address> = Vec::new();
        signers.push(signer);
        assert(signers@ =~= seq![signer]);
        assert forall|who: Address| signers@.contains(who) <==> who == signer by {
            if who == signer {
                assert(signers@[0] == who);
            }
        }
        Authorization { everyone: false, signers }
    }

    /// Adds the consent of `signer`.
    pub fn add(&mut self, signer: Address)
        ensures
            forall|who: Address|
                final(self).spec_permits(who) <==> old(self).spec_permits(who) || who == signer,
    {
        let ghost before = self.signers@;
        self.signers.push(signer);
        assert forall|who: Address| self.signers@.contains(who) <==> before.contains(who) || who
            == signer by {
            if before.contains(who) {
                let i = choose|i: int| 0 <= i < before.len() && before[i] == who;
                assert(self.signers@[i] == who);
            }
            if who == signer {
                assert(self.signers@[before.len() as int] == who);
            }
        }
    }

    #[verifier::when_used_as_spec(spec_permits)]
    pub fn permits(&self, who: Address) -> (yes: bool)
        ensures
            yes == self.spec_permits(who),
    {
        if self.everyone {
            return true;
        }
        let mut i: usize = 0;
        while i < self.signers.len()
            invariant
                i <= self.signers.len(),
                forall|j: int| 0 <= j < i ==> self.signers@[j] != who,
            decreases self.signers.len() - i,
        {
            if self.signers[i] == who {
                return true;
            }
            i += 1;
        }
        false
    }

    #[verifier::when_used_as_spec(spec_covers)]
    pub fn covers(&self, invoker: Address, who: Address) -> (yes: bool)
        ensures
            yes == self.spec_covers(invoker, who),
    {
        who == invoker || self.permits(who)
    }

    /// Passes exactly when `who` has consented.
    pub fn require_auth(&self, who: Address) -> (r: Result<(), MarketError>)
        ensures
            r == (if self.spec_permits(who) {
                Ok::<(), MarketError>(())
            } else {
                Err(MarketError::Unauthorized)
            }),
    {
        if self.permits(who) {
            Ok(())
        } else {
            Err(MarketError::Unauthorized)
        }
    }
}

} // verus!
