//! The decisions of the marketplace.
//!
//! Each function here takes what was read from the record store and the
//! arguments of a call, and decides whether the call goes ahead and, if so,
//! which records are written and which assets move. It touches nothing
//! itself: whoever holds the store, the registry and the ledgers carries
//! the plan out, all of it or nothing.
use vstd::prelude::*;
use crate::store::{allocate, allocation};
use crate::types::{Address, Currency, ListingInfo, MarketError, Payment, SwapOffer, Transfer};

verus! {

/// The configuration that initialization writes; both counters start at zero.
#[derive(Clone, Copy, Debug, PartialEq, Eq, Structural)]
pub struct Setup {
    pub admin: Address,
    pub nft_contract: Address,
    pub usdc_token: Address,
    pub xlm_token: Address,
}

/// A listing to be created: the token goes into escrow, the record is
/// written under `id`, and the counter becomes `next_id`.
#[derive(Clone, Copy, Debug, PartialEq, Eq, Structural)]
pub struct NewListing {
    pub id: u64,
    pub next_id: u64,
    pub listing: ListingInfo,
    pub escrow: Transfer,
}

/// A purchase: the buyer pays the seller, then the token leaves escrow for
/// the buyer, and the closed record is written back.
#[derive(Clone, Copy, Debug, PartialEq, Eq, Structural)]
pub struct Sale {
    pub listing: ListingInfo,
    pub payment: Payment,
    pub release: Transfer,
}

/// A cancelled listing: the token returns to the seller and the closed
/// record is written back.
#[derive(Clone, Copy, Debug, PartialEq, Eq, Structural)]
pub struct Withdrawal {
    pub listing: ListingInfo,
    pub release: Transfer,
}

/// A swap offer to be created: the offered token goes into escrow, the
/// record is written under `id`, and the counter becomes `next_id`.
#[derive(Clone, Copy, Debug, PartialEq, Eq, Structural)]
pub struct NewSwap {
    pub id: u64,
    pub next_id: u64,
    pub offer: SwapOffer,
    pub escrow: Transfer,
}

/// An accepted swap: the desired token goes into escrow, the offered token
/// leaves it for the acceptor, the desired token leaves it for the offerer,
/// in this order, and the closed record is written back.
#[derive(Clone, Copy, Debug, PartialEq, Eq, Structural)]
pub struct Exchange {
    pub offer: SwapOffer,
    pub escrow: Transfer,
    pub to_acceptor: Transfer,
    pub to_offerer: Transfer,
}

/// A cancelled swap offer: the offered token returns to the offerer and
/// the closed record is written back.
#[derive(Clone, Copy, Debug, PartialEq, Eq, Structural)]
pub struct Retraction {
    pub offer: SwapOffer,
    pub release: Transfer,
}

/// Initialization goes ahead exactly once.
pub open spec fn setup_plan(
    initialized: bool,
    admin: Address,
    nft_contract: Address,
    usdc_token: Address,
    xlm_token: Address,
) -> Result<Setup, MarketError> {
    if initialized {
        Err(MarketError::AlreadyInitialized)
    } else {
        Ok(Setup { admin, nft_contract, usdc_token, xlm_token })
    }
}

/// A listing needs two positive prices, a configured marketplace and a free
/// identifier; it is created active and escrows the token from the seller.
pub open spec fn listing_plan(
    initialized: bool,
    counter: Option<u64>,
    contract: Address,
    seller: Address,
    token_id: u64,
    price_xlm: i128,
    price_usdc: i128,
    xlm_usdc_rate: i128,
) -> Result<NewListing, MarketError> {
    if price_xlm <= 0 {
        Err(MarketError::InvalidPrice(Currency::Xlm))
    } else if price_usdc <= 0 {
        Err(MarketError::InvalidPrice(Currency::Usdc))
    } else if !initialized {
        Err(MarketError::NotInitialized)
    } else {
        match allocation(counter) {
            Err(e) => Err(e),
            Ok((id, next_id)) => Ok(
                NewListing {
                    id,
                    next_id,
                    listing: ListingInfo {
                        seller,
                        token_id,
                        price_xlm,
                        price_usdc,
                        xlm_usdc_rate,
                        active: true,
                    },
                    escrow: Transfer { from: seller, to: contract, token_id },
                },
            ),
        }
    }
}

/// A purchase needs a stored, active listing; the buyer pays the listed
/// price in the chosen currency to the seller and receives the token.
pub open spec fn purchase_plan(
    stored: Option<ListingInfo>,
    contract: Address,
    buyer: Address,
    currency: Currency,
) -> Result<Sale, MarketError> {
    match stored {
        None => Err(MarketError::NotFound),
        Some(listing) => if !listing.active {
            Err(MarketError::ListingInactive)
        } else {
            Ok(
                Sale {
                    listing: listing.spec_closed(),
                    payment: Payment {
                        currency,
                        from: buyer,
                        to: listing.seller,
                        amount: listing.spec_price(currency),
                    },
                    release: Transfer { from: contract, to: buyer, token_id: listing.token_id },
                },
            )
        },
    }
}

/// Only the seller cancels a stored, active listing; the token returns to
/// the seller.
pub open spec fn cancel_listing_plan(
    stored: Option<ListingInfo>,
    contract: Address,
    seller: Address,
) -> Result<Withdrawal, MarketError> {
    match stored {
        None => Err(MarketError::NotFound),
        Some(listing) => if listing.seller != seller {
            Err(MarketError::Unauthorized)
        } else if !listing.active {
            Err(MarketError::ListingInactive)
        } else {
            Ok(
                Withdrawal {
                    listing: listing.spec_closed(),
                    release: Transfer { from: contract, to: seller, token_id: listing.token_id },
                },
            )
        },
    }
}

/// A swap offer needs two different tokens, a configured marketplace and a
/// free identifier; it is created active and escrows the offered token.
pub open spec fn swap_offer_plan(
    initialized: bool,
    counter: Option<u64>,
    contract: Address,
    offerer: Address,
    offered_token_id: u64,
    desired_token_id: u64,
) -> Result<NewSwap, MarketError> {
    if offered_token_id == desired_token_id {
        Err(MarketError::InvalidSwap)
    } else if !initialized {
        Err(MarketError::NotInitialized)
    } else {
        match allocation(counter) {
            Err(e) => Err(e),
            Ok((id, next_id)) => Ok(
                NewSwap {
                    id,
                    next_id,
                    offer: SwapOffer { offerer, offered_token_id, desired_token_id, active: true },
                    escrow: Transfer { from: offerer, to: contract, token_id: offered_token_id },
                },
            ),
        }
    }
}

/// Accepting needs a stored, active offer; the two tokens change hands
/// through the marketplace's custody.
pub open spec fn accept_swap_plan(
    stored: Option<SwapOffer>,
    contract: Address,
    acceptor: Address,
) -> Result<Exchange, MarketError> {
    match stored {
        None => Err(MarketError::NotFound),
        Some(offer) => if !offer.active {
            Err(MarketError::SwapInactive)
        } else {
            Ok(
                Exchange {
                    offer: offer.spec_closed(),
                    escrow: Transfer {
                        from: acceptor,
                        to: contract,
                        token_id: offer.desired_token_id,
                    },
                    to_acceptor: Transfer {
                        from: contract,
                        to: acceptor,
                        token_id: offer.offered_token_id,
                    },
                    to_offerer: Transfer {
                        from: contract,
                        to: offer.offerer,
                        token_id: offer.desired_token_id,
                    },
                },
            )
        },
    }
}

/// Only the offerer cancels a stored, active offer; the offered token
/// returns to the offerer.
pub open spec fn cancel_swap_plan(
    stored: Option<SwapOffer>,
    contract: Address,
    offerer: Address,
) -> Result<Retraction, MarketError> {
    match stored {
        None => Err(MarketError::NotFound),
        Some(offer) => if offer.offerer != offerer {
            Err(MarketError::Unauthorized)
        } else if !offer.active {
            Err(MarketError::SwapInactive)
        } else {
            Ok(
                Retraction {
                    offer: offer.spec_closed(),
                    release: Transfer {
                        from: contract,
                        to: offerer,
                        token_id: offer.offered_token_id,
                    },
                },
            )
        },
    }
}

/// Decides an initialization; `initialized` says whether a configuration is
/// already stored.
pub fn plan_initialize(
    initialized: bool,
    admin: Address,
    nft_contract: Address,
    usdc_token: Address,
    xlm_token: Address,
) -> (r: Result<Setup, MarketError>)
    ensures
        r == setup_plan(initialized, admin, nft_contract, usdc_token, xlm_token),
{
    if initialized {
        Err(MarketError::AlreadyInitialized)
    } else {
        Ok(Setup { admin, nft_contract, usdc_token, xlm_token })
    }
}

/// Decides the creation of a listing; `counter` is the stored listing
/// counter and `contract` the marketplace's own address.
pub fn plan_listing(
    initialized: bool,
    counter: Option<u64>,
    contract: Address,
    seller: Address,
    token_id: u64,
    price_xlm: i128,
    price_usdc: i128,
    xlm_usdc_rate: i128,
) -> (r: Result<NewListing, MarketError>)
    ensures
        r == listing_plan(
            initialized,
            counter,
            contract,
            seller,
            token_id,
            price_xlm,
            price_usdc,
            xlm_usdc_rate,
        ),
{
    if price_xlm <= 0 {
        return Err(MarketError::InvalidPrice(Currency::Xlm));
    }
    if price_usdc <= 0 {
        return Err(MarketError::InvalidPrice(Currency::Usdc));
    }
    if !initialized {
        return Err(MarketError::NotInitialized);
    }
    match allocate(counter) {
        Err(e) => Err(e),
        Ok((id, next_id)) => Ok(
            NewListing {
                id,
                next_id,
                listing: ListingInfo {
                    seller,
                    token_id,
                    price_xlm,
                    price_usdc,
                    xlm_usdc_rate,
                    active: true,
                },
                escrow: Transfer { from: seller, to: contract, token_id },
            },
        ),
    }
}

/// Decides a purchase of the listing read from the store.
pub fn plan_purchase(
    stored: Option<ListingInfo>,
    contract: Address,
    buyer: Address,
    currency: Currency,
) -> (r: Result<Sale, MarketError>)
    ensures
        r == purchase_plan(stored, contract, buyer, currency),
{
    match stored {
        None => Err(MarketError::NotFound),
        Some(listing) => {
            if !listing.active {
                return Err(MarketError::ListingInactive);
            }
            Ok(
                Sale {
                    listing: listing.closed(),
                    payment: Payment {
                        currency,
                        from: buyer,
                        to: listing.seller,
                        amount: listing.price(currency),
                    },
                    release: Transfer { from: contract, to: buyer, token_id: listing.token_id },
                },
            )
        },
    }
}

/// Decides the cancellation of the listing read from the store.
pub fn plan_cancel_listing(stored: Option<ListingInfo>, contract: Address, seller: Address) -> (r:
    Result<Withdrawal, MarketError>)
    ensures
        r == cancel_listing_plan(stored, contract, seller),
{
    match stored {
        None => Err(MarketError::NotFound),
        Some(listing) => {
            if listing.seller != seller {
                return Err(MarketError::Unauthorized);
            }
            if !listing.active {
                return Err(MarketError::ListingInactive);
            }
            Ok(
                Withdrawal {
                    listing: listing.closed(),
                    release: Transfer { from: contract, to: seller, token_id: listing.token_id },
                },
            )
        },
    }
}

/// Decides the creation of a swap offer; `counter` is the stored swap
/// counter and `contract` the marketplace's own address.
pub fn plan_swap_offer(
    initialized: bool,
    counter: Option<u64>,
    contract: Address,
    offerer: Address,
    offered_token_id: u64,
    desired_token_id: u64,
) -> (r: Result<NewSwap, MarketError>)
    ensures
        r == swap_offer_plan(
            initialized,
            counter,
            contract,
            offerer,
            offered_token_id,
            desired_token_id,
        ),
{
    if offered_token_id == desired_token_id {
        return Err(MarketError::InvalidSwap);
    }
    if !initialized {
        return Err(MarketError::NotInitialized);
    }
    match allocate(counter) {
        Err(e) => Err(e),
        Ok((id, next_id)) => Ok(
            NewSwap {
                id,
                next_id,
                offer: SwapOffer { offerer, offered_token_id, desired_token_id, active: true },
                escrow: Transfer { from: offerer, to: contract, token_id: offered_token_id },
            },
        ),
    }
}

/// Decides the acceptance of the swap offer read from the store.
pub fn plan_accept_swap(stored: Option<SwapOffer>, contract: Address, acceptor: Address) -> (r:
    Result<Exchange, MarketError>)
    ensures
        r == accept_swap_plan(stored, contract, acceptor),
{
    match stored {
        None => Err(MarketError::NotFound),
        Some(offer) => {
            if !offer.active {
                return Err(MarketError::SwapInactive);
            }
            Ok(
                Exchange {
                    offer: offer.closed(),
                    escrow: Transfer {
                        from: acceptor,
                        to: contract,
                        token_id: offer.desired_token_id,
                    },
                    to_acceptor: Transfer {
                        from: contract,
                        to: acceptor,
                        token_id: offer.offered_token_id,
                    },
                    to_offerer: Transfer {
                        from: contract,
                        to: offer.offerer,
                        token_id: offer.desired_token_id,
                    },
                },
            )
        },
    }
}

/// Decides the cancellation of the swap offer read from the store.
pub fn plan_cancel_swap(stored: Option<SwapOffer>, contract: Address, offerer: Address) -> (r:
    Result<Retraction, MarketError>)
    ensures
        r == cancel_swap_plan(stored, contract, offerer),
{
    match stored {
        None => Err(MarketError::NotFound),
        Some(offer) => {
            if offer.offerer != offerer {
                return Err(MarketError::Unauthorized);
            }
            if !offer.active {
                return Err(MarketError::SwapInactive);
            }
            Ok(
                Retraction {
                    offer: offer.closed(),
                    release: Transfer {
                        from: contract,
                        to: offerer,
                        token_id: offer.offered_token_id,
                    },
                },
            )
        },
    }
}

} // verus!
