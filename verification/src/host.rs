//! The marketplace together with its collaborators, and the mathematical
//! model of what each call does to them.
use vstd::prelude::*;
use crate::auth::Authorization;
use crate::history::well_formed;
use crate::plan::{
    accept_swap_plan, cancel_listing_plan, cancel_swap_plan, listing_plan, purchase_plan,
    setup_plan, swap_offer_plan, Setup,
};
use crate::registry::{transfer_outcome, NftRegistry};
use crate::store::{counter_at, RecordStore};
use crate::token::{payment_outcome, TokenLedger};
use crate::types::{
    Address, Currency, DataKey, ListingInfo, MarketError, Record, SwapOffer, Transfer,
};

verus! {

/// Everything that a call can read or change, as mathematical values.
pub struct World {
    /// The marketplace's own address, under which escrowed tokens are held.
    pub contract: Address,
    /// The record store.
    pub records: Map<DataKey, Record>,
    /// The token registry: the owner of token `i` at index `i`.
    pub owners: Seq<Address>,
    /// The balances on the ledger of the native asset.
    pub xlm: Map<Address, int>,
    /// The balances on the ledger of the stable asset.
    pub usdc: Map<Address, int>,
}

impl World {
    /// The listing stored under `listing_id`, if any.
    pub open spec fn listing(self, listing_id: u64) -> Option<ListingInfo> {
        match self.records.get(DataKey::Listing(listing_id)) {
            Some(Record::Listing(l)) => Some(l),
            _ => None,
        }
    }

    /// The swap offer stored under `swap_id`, if any.
    pub open spec fn swap_offer(self, swap_id: u64) -> Option<SwapOffer> {
        match self.records.get(DataKey::SwapOffer(swap_id)) {
            Some(Record::Swap(o)) => Some(o),
            _ => None,
        }
    }

    /// The number of listings created so far.
    pub open spec fn total_listings(self) -> u64 {
        counter_at(self.records, DataKey::NextListingId)
    }

    /// The number of swap offers created so far.
    pub open spec fn total_swaps(self) -> u64 {
        counter_at(self.records, DataKey::NextSwapId)
    }

    /// The owner of a token, if it has been minted.
    pub open spec fn owner_of(self, token_id: u64) -> Option<Address> {
        if token_id < self.owners.len() {
            Some(self.owners[token_id as int])
        } else {
            None
        }
    }

    /// The balances on the ledger of `currency`.
    pub open spec fn ledger(self, currency: Currency) -> Map<Address, int> {
        match currency {
            Currency::Xlm => self.xlm,
            Currency::Usdc => self.usdc,
        }
    }

    /// Whether `from` may move its assets in a call of the marketplace: the
    /// marketplace acts in its own name, and the acting address of the call
    /// where it has consented.
    pub open spec fn covers(self, authorized: bool, actor: Address, from: Address) -> bool {
        from == self.contract || (authorized && from == actor)
    }

    /// The world with the ledger of `currency` replaced.
    pub open spec fn with_ledger(self, currency: Currency, balances: Map<Address, int>) -> World {
        match currency {
            Currency::Xlm => World { xlm: balances, ..self },
            Currency::Usdc => World { usdc: balances, ..self },
        }
    }

    /// The world with one record written.
    pub open spec fn with_record(self, key: DataKey, record: Record) -> World {
        World { records: self.records.insert(key, record), ..self }
    }

    /// Writes the configuration and both counters, once, with the consent of
    /// the administrator it names.
    pub open spec fn initialize(
        self,
        authorized: bool,
        admin: Address,
        nft_contract: Address,
        usdc_token: Address,
        xlm_token: Address,
    ) -> (World, Result<(), MarketError>) {
        if !authorized {
            (self, Err(MarketError::Unauthorized))
        } else {
            match setup_plan(
                self.records.contains_key(DataKey::Admin),
                admin,
                nft_contract,
                usdc_token,
                xlm_token,
            ) {
                Err(e) => (self, Err(e)),
                Ok(setup) => (self.configured(setup), Ok(())),
            }
        }
    }

    /// The world after a configuration has been written: the four
    /// addresses, and both counters at zero.
    pub open spec fn configured(self, setup: Setup) -> World {
        self.with_record(DataKey::Admin, Record::Address(setup.admin)).with_record(
            DataKey::NftContract,
            Record::Address(setup.nft_contract),
        ).with_record(DataKey::UsdcToken, Record::Address(setup.usdc_token)).with_record(
            DataKey::XlmToken,
            Record::Address(setup.xlm_token),
        ).with_record(DataKey::NextListingId, Record::Counter(0)).with_record(
            DataKey::NextSwapId,
            Record::Counter(0),
        )
    }

    /// Moves one token in the registry, or refuses and changes nothing;
    /// `authorized` says whether the sender has authorized the movement.
    pub open spec fn nft_transfer(
        self,
        authorized: bool,
        from: Address,
        to: Address,
        token_id: u64,
    ) -> (World, Result<(), MarketError>) {
        match transfer_outcome(self.owners, authorized, Transfer { from, to, token_id }) {
            Err(e) => (self, Err(e)),
            Ok(owners) => (World { owners, ..self }, Ok(())),
        }
    }

    /// Creates a listing: with the seller's consent and a valid plan, the
    /// token goes into escrow, the record is written and the counter advances.
    pub open spec fn list_for_sale(
        self,
        authorized: bool,
        seller: Address,
        token_id: u64,
        price_xlm: i128,
        price_usdc: i128,
        xlm_usdc_rate: i128,
    ) -> (World, Result<u64, MarketError>) {
        if !authorized {
            (self, Err(MarketError::Unauthorized))
        } else {
            match listing_plan(
                self.records.contains_key(DataKey::NftContract),
                Some(self.total_listings()),
                self.contract,
                seller,
                token_id,
                price_xlm,
                price_usdc,
                xlm_usdc_rate,
            ) {
                Err(e) => (self, Err(e)),
                Ok(plan) => match transfer_outcome(
                    self.owners,
                    self.covers(authorized, seller, plan.escrow.from),
                    plan.escrow,
                ) {
                    Err(e) => (self, Err(e)),
                    Ok(owners) => (
                        World { owners, ..self }.with_record(
                            DataKey::Listing(plan.id),
                            Record::Listing(plan.listing),
                        ).with_record(DataKey::NextListingId, Record::Counter(plan.next_id)),
                        Ok(plan.id),
                    ),
                },
            }
        }
    }

    /// Buys a listing in `currency`: with the buyer's consent and a valid
    /// plan, the payment is made, then the token released, then the listing
    /// closed; if the payment or the release is refused, nothing changes.
    pub open spec fn buy(
        self,
        authorized: bool,
        buyer: Address,
        listing_id: u64,
        currency: Currency,
    ) -> (World, Result<(), MarketError>) {
        if !authorized {
            (self, Err(MarketError::Unauthorized))
        } else {
            match purchase_plan(self.listing(listing_id), self.contract, buyer, currency) {
                Err(e) => (self, Err(e)),
                Ok(sale) => match payment_outcome(
                    self.ledger(currency),
                    self.covers(authorized, buyer, sale.payment.from),
                    sale.payment.from,
                    sale.payment.to,
                    sale.payment.amount as int,
                ) {
                    Err(e) => (self, Err(e)),
                    Ok(balances) => match transfer_outcome(
                        self.owners,
                        self.covers(authorized, buyer, sale.release.from),
                        sale.release,
                    ) {
                        Err(e) => (self, Err(e)),
                        Ok(owners) => (
                            World { owners, ..self }.with_ledger(currency, balances).with_record(
                                DataKey::Listing(listing_id),
                                Record::Listing(sale.listing),
                            ),
                            Ok(()),
                        ),
                    },
                },
            }
        }
    }

    /// Cancels a listing: with the seller's consent and a valid plan, the
    /// token returns to the seller and the listing is closed.
    pub open spec fn cancel_listing(self, authorized: bool, seller: Address, listing_id: u64) -> (
        World,
        Result<(), MarketError>,
    ) {
        if !authorized {
            (self, Err(MarketError::Unauthorized))
        } else {
            match cancel_listing_plan(self.listing(listing_id), self.contract, seller) {
                Err(e) => (self, Err(e)),
                Ok(plan) => match transfer_outcome(
                    self.owners,
                    self.covers(authorized, seller, plan.release.from),
                    plan.release,
                ) {
                    Err(e) => (self, Err(e)),
                    Ok(owners) => (
                        World { owners, ..self }.with_record(
                            DataKey::Listing(listing_id),
                            Record::Listing(plan.listing),
                        ),
                        Ok(()),
                    ),
                },
            }
        }
    }

    /// Creates a swap offer: with the offerer's consent and a valid plan,
    /// the offered token goes into escrow, the record is written and the
    /// counter advances.
    pub open spec fn create_swap_offer(
        self,
        authorized: bool,
        offerer: Address,
        offered_token_id: u64,
        desired_token_id: u64,
    ) -> (World, Result<u64, MarketError>) {
        if !authorized {
            (self, Err(MarketError::Unauthorized))
        } else {
            match swap_offer_plan(
                self.records.contains_key(DataKey::NftContract),
                Some(self.total_swaps()),
                self.contract,
                offerer,
                offered_token_id,
                desired_token_id,
            ) {
                Err(e) => (self, Err(e)),
                Ok(plan) => match transfer_outcome(
                    self.owners,
                    self.covers(authorized, offerer, plan.escrow.from),
                    plan.escrow,
                ) {
                    Err(e) => (self, Err(e)),
                    Ok(owners) => (
                        World { owners, ..self }.with_record(
                            DataKey::SwapOffer(plan.id),
                            Record::Swap(plan.offer),
                        ).with_record(DataKey::NextSwapId, Record::Counter(plan.next_id)),
                        Ok(plan.id),
                    ),
                },
            }
        }
    }

    /// Accepts a swap offer: with the acceptor's consent and a valid plan,
    /// the three custody movements are made in order and the offer is
    /// closed; if any of them is refused, nothing changes.
    pub open spec fn accept_swap(self, authorized: bool, acceptor: Address, swap_id: u64) -> (
        World,
        Result<(), MarketError>,
    ) {
        if !authorized {
            (self, Err(MarketError::Unauthorized))
        } else {
            match accept_swap_plan(self.swap_offer(swap_id), self.contract, acceptor) {
                Err(e) => (self, Err(e)),
                Ok(plan) => match transfer_outcome(
                    self.owners,
                    self.covers(authorized, acceptor, plan.escrow.from),
                    plan.escrow,
                ) {
                    Err(e) => (self, Err(e)),
                    Ok(escrowed) => match transfer_outcome(
                        escrowed,
                        self.covers(authorized, acceptor, plan.to_acceptor.from),
                        plan.to_acceptor,
                    ) {
                        Err(e) => (self, Err(e)),
                        Ok(handed) => match transfer_outcome(
                            handed,
                            self.covers(authorized, acceptor, plan.to_offerer.from),
                            plan.to_offerer,
                        ) {
                            Err(e) => (self, Err(e)),
                            Ok(owners) => (
                                World { owners, ..self }.with_record(
                                    DataKey::SwapOffer(swap_id),
                                    Record::Swap(plan.offer),
                                ),
                                Ok(()),
                            ),
                        },
                    },
                },
            }
        }
    }

    /// Cancels a swap offer: with the offerer's consent and a valid plan,
    /// the offered token returns to the offerer and the offer is closed.
    pub open spec fn cancel_swap(self, authorized: bool, offerer: Address, swap_id: u64) -> (
        World,
        Result<(), MarketError>,
    ) {
        if !authorized {
            (self, Err(MarketError::Unauthorized))
        } else {
            match cancel_swap_plan(self.swap_offer(swap_id), self.contract, offerer) {
                Err(e) => (self, Err(e)),
                Ok(plan) => match transfer_outcome(
                    self.owners,
                    self.covers(authorized, offerer, plan.release.from),
                    plan.release,
                ) {
                    Err(e) => (self, Err(e)),
                    Ok(owners) => (
                        World { owners, ..self }.with_record(
                            DataKey::SwapOffer(swap_id),
                            Record::Swap(plan.offer),
                        ),
                        Ok(()),
                    ),
                },
            }
        }
    }
}

/// The marketplace's state and the collaborators it acts on, in memory.
pub struct Host {
    /// The marketplace's own address.
    pub contract: Address,
    /// The consent attached to the call that is about to be made.
    pub auth: Authorization,
    /// The marketplace's records.
    pub store: RecordStore,
    /// The token registry.
    pub nft: NftRegistry,
    /// The ledger of the native asset.
    pub xlm: TokenLedger,
    /// The ledger of the stable asset.
    pub usdc: TokenLedger,
}

impl View for Host {
    type V = World;

    open spec fn view(&self) -> World {
        World {
            contract: self.contract,
            records: self.store@,
            owners: self.nft@,
            xlm: self.xlm@,
            usdc: self.usdc@,
        }
    }
}

impl Host {
    /// A marketplace at `contract` with empty store, registry and ledgers,
    /// and with nobody's consent.
    pub fn new(contract: Address) -> (host: Host)
        ensures
            host@.contract == contract,
            host@.records == Map::<DataKey, Record>::empty(),
            host@.owners == Seq::<Address>::empty(),
            forall|who: Address| host@.xlm[who] == 0 && host@.usdc[who] == 0,
            forall|who: Address| !host.auth.spec_permits(who),
            well_formed(host@),
    {
        Host {
            contract,
            auth: Authorization::nobody(),
            store: RecordStore::new(),
            nft: NftRegistry::new(),
            xlm: TokenLedger::new(),
            usdc: TokenLedger::new(),
        }
    }

    /// Takes every address to have consented to the calls that follow.
    pub fn mock_all_auths(&mut self)
        ensures
            final(self)@ == old(self)@,
            forall|who: Address| final(self).auth.spec_permits(who),
    {
        self.auth = Authorization::all();
    }

    /// Takes `signer` alone to have consented to the calls that follow.
    pub fn set_signer(&mut self, signer: Address)
        ensures
            final(self)@ == old(self)@,
            forall|who: Address| final(self).auth.spec_permits(who) <==> who == signer,
    {
        self.auth = Authorization::only(signer);
    }
}

} // verus!
