//! The entry points of the marketplace.
//!
//! Every entry point checks consent, reads the store, decides (see
//! [`crate::plan`]), makes sure that every movement of the plan will go
//! through, and only then moves assets and writes records. A refused call
//! therefore leaves the host exactly as it was.
use vstd::prelude::*;
use crate::host::Host;
use crate::plan::{
    plan_accept_swap, plan_cancel_listing, plan_cancel_swap, plan_initialize, plan_listing,
    plan_purchase, plan_swap_offer,
};
use crate::types::{Address, Currency, DataKey, ListingInfo, MarketError, Record, SwapOffer, Transfer};

verus! {

/// The escrow marketplace. It holds no state of its own: every entry point
/// works on the [`Host`] it is given.
pub struct ShimejiMarketplace;

fn owned_by(owner: Option<Address>, who: Address) -> (yes: bool)
    ensures
        yes == (owner == Some(who)),
{
    match owner {
        Some(a) => a == who,
        None => false,
    }
}

impl ShimejiMarketplace {
    /// The address of the token registry, once the marketplace is configured.
    pub fn nft_contract(host: &Host) -> (registry: Option<Address>)
        ensures
            registry == (match host@.records.get(DataKey::NftContract) {
                Some(Record::Address(a)) => Some(a),
                _ => None,
            }),
    {
        host.store.address(DataKey::NftContract)
    }

    /// Moves `token_id` from `from` to `to` in the token registry. The
    /// registry refuses unless `from` has consented, or is the marketplace
    /// itself, and owns the token.
    pub fn nft_transfer(host: &mut Host, from: Address, to: Address, token_id: u64) -> (r: Result<
        (),
        MarketError,
    >)
        ensures
            (final(host)@, r) == old(host)@.nft_transfer(
                old(host).auth.spec_permits(from) || from == old(host).contract,
                from,
                to,
                token_id,
            ),
            final(host).auth == old(host).auth,
    {
        host.nft.transfer(&host.auth, host.contract, Transfer { from, to, token_id })
    }

    /// Configures the marketplace, with the consent of the administrator it
    /// names. Refused with `AlreadyInitialized` once a configuration is stored.
    pub fn initialize(
        host: &mut Host,
        admin: Address,
        nft_contract: Address,
        usdc_token: Address,
        xlm_token: Address,
    ) -> (r: Result<(), MarketError>)
        ensures
            (final(host)@, r) == old(host)@.initialize(
                old(host).auth.spec_permits(admin),
                admin,
                nft_contract,
                usdc_token,
                xlm_token,
            ),
            final(host).auth == old(host).auth,
    {
        match host.auth.require_auth(admin) {
            Err(e) => {
                return Err(e);
            },
            Ok(()) => {},
        }
        let initialized = host.store.has(DataKey::Admin);
        match plan_initialize(initialized, admin, nft_contract, usdc_token, xlm_token) {
            Err(e) => Err(e),
            Ok(setup) => {
                host.store.set(DataKey::Admin, Record::Address(setup.admin));
                host.store.set(DataKey::NftContract, Record::Address(setup.nft_contract));
                host.store.set(DataKey::UsdcToken, Record::Address(setup.usdc_token));
                host.store.set(DataKey::XlmToken, Record::Address(setup.xlm_token));
                host.store.set(DataKey::NextListingId, Record::Counter(0));
                host.store.set(DataKey::NextSwapId, Record::Counter(0));
                Ok(())
            },
        }
    }

    /// Lists `token_id` for sale at the two prices and returns the id of the
    /// new listing.
    pub fn list_for_sale(
        host: &mut Host,
        seller: Address,
        token_id: u64,
        price_xlm: i128,
        price_usdc: i128,
        xlm_usdc_rate: i128,
    ) -> (r: Result<u64, MarketError>)
        ensures
            (final(host)@, r) == old(host)@.list_for_sale(
                old(host).auth.spec_permits(seller),
                seller,
                token_id,
                price_xlm,
                price_usdc,
                xlm_usdc_rate,
            ),
            final(host).auth == old(host).auth,
    {
        match host.auth.require_auth(seller) {
            Err(e) => {
                return Err(e);
            },
            Ok(()) => {},
        }
        let initialized = host.store.has(DataKey::NftContract);
        let counter = Some(Self::total_listings(host));
        let plan = match plan_listing(
            initialized,
            counter,
            host.contract,
            seller,
            token_id,
            price_xlm,
            price_usdc,
            xlm_usdc_rate,
        ) {
            Err(e) => {
                return Err(e);
            },
            Ok(plan) => plan,
        };
        match host.nft.transfer(&host.auth, host.contract, plan.escrow) {
            Err(e) => {
                return Err(e);
            },
            Ok(()) => {},
        }
        host.store.set(DataKey::Listing(plan.id), Record::Listing(plan.listing));
        host.store.set(DataKey::NextListingId, Record::Counter(plan.next_id));
        Ok(plan.id)
    }

    /// Buys a listing in the given currency.
    pub fn buy(host: &mut Host, buyer: Address, listing_id: u64, currency: Currency) -> (r: Result<
        (),
        MarketError,
    >)
        ensures
            (final(host)@, r) == old(host)@.buy(
                old(host).auth.spec_permits(buyer),
                buyer,
                listing_id,
                currency,
            ),
            final(host).auth == old(host).auth,
    {
        match host.auth.require_auth(buyer) {
            Err(e) => {
                return Err(e);
            },
            Ok(()) => {},
        }
        let sale = match plan_purchase(
            host.store.listing(listing_id),
            host.contract,
            buyer,
            currency,
        ) {
            Err(e) => {
                return Err(e);
            },
            Ok(sale) => sale,
        };
        let payable = match currency {
            Currency::Xlm => host.xlm.check_payment(
                &host.auth,
                host.contract,
                sale.payment.from,
                sale.payment.to,
                sale.payment.amount,
            ),
            Currency::Usdc => host.usdc.check_payment(
                &host.auth,
                host.contract,
                sale.payment.from,
                sale.payment.to,
                sale.payment.amount,
            ),
        };
        match payable {
            Err(e) => {
                return Err(e);
            },
            Ok(()) => {},
        }
        if !owned_by(host.nft.owner_of(sale.release.token_id), sale.release.from) {
            return Err(MarketError::NotOwner);
        }
        let paid = match currency {
            Currency::Xlm => host.xlm.transfer(
                &host.auth,
                host.contract,
                sale.payment.from,
                sale.payment.to,
                sale.payment.amount,
            ),
            Currency::Usdc => host.usdc.transfer(
                &host.auth,
                host.contract,
                sale.payment.from,
                sale.payment.to,
                sale.payment.amount,
            ),
        };
        let released = host.nft.transfer(&host.auth, host.contract, sale.release);
        assert(paid is Ok && released is Ok);
        host.store.set(DataKey::Listing(listing_id), Record::Listing(sale.listing));
        Ok(())
    }

    /// Buys a listing at its price in the native asset.
    pub fn buy_xlm(host: &mut Host, buyer: Address, listing_id: u64) -> (r: Result<
        (),
        MarketError,
    >)
        ensures
            (final(host)@, r) == old(host)@.buy(
                old(host).auth.spec_permits(buyer),
                buyer,
                listing_id,
                Currency::Xlm,
            ),
            final(host).auth == old(host).auth,
    {
        Self::buy(host, buyer, listing_id, Currency::Xlm)
    }

    /// Buys a listing at its price in the stable asset.
    pub fn buy_usdc(host: &mut Host, buyer: Address, listing_id: u64) -> (r: Result<
        (),
        MarketError,
    >)
        ensures
            (final(host)@, r) == old(host)@.buy(
                old(host).auth.spec_permits(buyer),
                buyer,
                listing_id,
                Currency::Usdc,
            ),
            final(host).auth == old(host).auth,
    {
        Self::buy(host, buyer, listing_id, Currency::Usdc)
    }

    /// Cancels a listing and returns its token to the seller.
    pub fn cancel_listing(host: &mut Host, seller: Address, listing_id: u64) -> (r: Result<
        (),
        MarketError,
    >)
        ensures
            (final(host)@, r) == old(host)@.cancel_listing(
                old(host).auth.spec_permits(seller),
                seller,
                listing_id,
            ),
            final(host).auth == old(host).auth,
    {
        match host.auth.require_auth(seller) {
            Err(e) => {
                return Err(e);
            },
            Ok(()) => {},
        }
        let plan = match plan_cancel_listing(
            host.store.listing(listing_id),
            host.contract,
            seller,
        ) {
            Err(e) => {
                return Err(e);
            },
            Ok(plan) => plan,
        };
        match host.nft.transfer(&host.auth, host.contract, plan.release) {
            Err(e) => {
                return Err(e);
            },
            Ok(()) => {},
        }
        host.store.set(DataKey::Listing(listing_id), Record::Listing(plan.listing));
        Ok(())
    }

    /// Offers `offered_token_id` in exchange for `desired_token_id` and
    /// returns the id of the new offer.
    pub fn create_swap_offer(
        host: &mut Host,
        offerer: Address,
        offered_token_id: u64,
        desired_token_id: u64,
    ) -> (r: Result<u64, MarketError>)
        ensures
            (final(host)@, r) == old(host)@.create_swap_offer(
                old(host).auth.spec_permits(offerer),
                offerer,
                offered_token_id,
                desired_token_id,
            ),
            final(host).auth == old(host).auth,
    {
        match host.auth.require_auth(offerer) {
            Err(e) => {
                return Err(e);
            },
            Ok(()) => {},
        }
        let initialized = host.store.has(DataKey::NftContract);
        let counter = Some(Self::total_swaps(host));
        let plan = match plan_swap_offer(
            initialized,
            counter,
            host.contract,
            offerer,
            offered_token_id,
            desired_token_id,
        ) {
            Err(e) => {
                return Err(e);
            },
            Ok(plan) => plan,
        };
        match host.nft.transfer(&host.auth, host.contract, plan.escrow) {
            Err(e) => {
                return Err(e);
            },
            Ok(()) => {},
        }
        host.store.set(DataKey::SwapOffer(plan.id), Record::Swap(plan.offer));
        host.store.set(DataKey::NextSwapId, Record::Counter(plan.next_id));
        Ok(plan.id)
    }

    /// Accepts a swap offer: the acceptor gives the desired token and
    /// receives the offered one.
    pub fn accept_swap(host: &mut Host, acceptor: Address, swap_id: u64) -> (r: Result<
        (),
        MarketError,
    >)
        ensures
            (final(host)@, r) == old(host)@.accept_swap(
                old(host).auth.spec_permits(acceptor),
                acceptor,
                swap_id,
            ),
            final(host).auth == old(host).auth,
    {
        match host.auth.require_auth(acceptor) {
            Err(e) => {
                return Err(e);
            },
            Ok(()) => {},
        }
        let plan = match plan_accept_swap(
            host.store.swap_offer(swap_id),
            host.contract,
            acceptor,
        ) {
            Err(e) => {
                return Err(e);
            },
            Ok(plan) => plan,
        };
        // The second and third movement act on what the earlier ones leave
        // behind, so whether they go through is told from the owners now.
        let same_token = plan.to_acceptor.token_id == plan.escrow.token_id;
        let escrow_ok = owned_by(host.nft.owner_of(plan.escrow.token_id), plan.escrow.from);
        let to_acceptor_ok = same_token || owned_by(
            host.nft.owner_of(plan.to_acceptor.token_id),
            plan.to_acceptor.from,
        );
        let to_offerer_ok = !same_token || plan.to_acceptor.to == plan.to_offerer.from;
        if !(escrow_ok && to_acceptor_ok && to_offerer_ok) {
            return Err(MarketError::NotOwner);
        }
        let escrowed = host.nft.transfer(&host.auth, host.contract, plan.escrow);
        let handed = host.nft.transfer(&host.auth, host.contract, plan.to_acceptor);
        let returned = host.nft.transfer(&host.auth, host.contract, plan.to_offerer);
        assert(escrowed is Ok && handed is Ok && returned is Ok);
        host.store.set(DataKey::SwapOffer(swap_id), Record::Swap(plan.offer));
        Ok(())
    }

    /// Cancels a swap offer and returns the offered token to the offerer.
    pub fn cancel_swap(host: &mut Host, offerer: Address, swap_id: u64) -> (r: Result<
        (),
        MarketError,
    >)
        ensures
            (final(host)@, r) == old(host)@.cancel_swap(
                old(host).auth.spec_permits(offerer),
                offerer,
                swap_id,
            ),
            final(host).auth == old(host).auth,
    {
        match host.auth.require_auth(offerer) {
            Err(e) => {
                return Err(e);
            },
            Ok(()) => {},
        }
        let plan = match plan_cancel_swap(host.store.swap_offer(swap_id), host.contract, offerer) {
            Err(e) => {
                return Err(e);
            },
            Ok(plan) => plan,
        };
        match host.nft.transfer(&host.auth, host.contract, plan.release) {
            Err(e) => {
                return Err(e);
            },
            Ok(()) => {},
        }
        host.store.set(DataKey::SwapOffer(swap_id), Record::Swap(plan.offer));
        Ok(())
    }

    /// The listing stored under `listing_id`.
    pub fn get_listing(host: &Host, listing_id: u64) -> (r: Result<ListingInfo, MarketError>)
        ensures
            r == (match host@.listing(listing_id) {
                Some(listing) => Ok::<ListingInfo, MarketError>(listing),
                None => Err(MarketError::NotFound),
            }),
    {
        match host.store.listing(listing_id) {
            Some(listing) => Ok(listing),
            None => Err(MarketError::NotFound),
        }
    }

    /// The swap offer stored under `swap_id`.
    pub fn get_swap_offer(host: &Host, swap_id: u64) -> (r: Result<SwapOffer, MarketError>)
        ensures
            r == (match host@.swap_offer(swap_id) {
                Some(offer) => Ok::<SwapOffer, MarketError>(offer),
                None => Err(MarketError::NotFound),
            }),
    {
        match host.store.swap_offer(swap_id) {
            Some(offer) => Ok(offer),
            None => Err(MarketError::NotFound),
        }
    }

    /// The number of listings created so far; zero before initialization.
    pub fn total_listings(host: &Host) -> (total: u64)
        ensures
            total == host@.total_listings(),
    {
        match host.store.counter(DataKey::NextListingId) {
            Some(n) => n,
            None => 0,
        }
    }

    /// The number of swap offers created so far; zero before initialization.
    pub fn total_swaps(host: &Host) -> (total: u64)
        ensures
            total == host@.total_swaps(),
    {
        match host.store.counter(DataKey::NextSwapId) {
            Some(n) => n,
            None => 0,
        }
    }
}

} // verus!
