//! Histories of calls: what a marketplace can reach, one call after another.
use vstd::prelude::*;
use crate::host::World;
use crate::types::{Address, Currency, DataKey, MarketError, Record};

verus! {

/// One event in the life of a marketplace. `authorized` says whether the
/// acting address of the call has consented to it.
pub enum Call {
    Initialize {
        authorized: bool,
        admin: Address,
        nft_contract: Address,
        usdc_token: Address,
        xlm_token: Address,
    },
    ListForSale {
        authorized: bool,
        seller: Address,
        token_id: u64,
        price_xlm: i128,
        price_usdc: i128,
        xlm_usdc_rate: i128,
    },
    Buy { authorized: bool, buyer: Address, listing_id: u64, currency: Currency },
    CancelListing { authorized: bool, seller: Address, listing_id: u64 },
    CreateSwapOffer {
        authorized: bool,
        offerer: Address,
        offered_token_id: u64,
        desired_token_id: u64,
    },
    AcceptSwap { authorized: bool, acceptor: Address, swap_id: u64 },
    CancelSwap { authorized: bool, offerer: Address, swap_id: u64 },
    /// Anything that happens to the registry and the ledgers without the
    /// marketplace: they are left as given here.
    Elsewhere { owners: Seq<Address>, xlm: Map<Address, int>, usdc: Map<Address, int> },
}

/// What a call answers: the identifier it created, if it creates one.
pub open spec fn reply(w: World, call: Call) -> Result<Option<u64>, MarketError> {
    match call {
        Call::Initialize {
            authorized,
            admin,
            nft_contract,
            usdc_token,
            xlm_token,
        } => match w.initialize(
            authorized,
            admin,
            nft_contract,
            usdc_token,
            xlm_token,
        ).1 {
            Ok(_) => Ok(None),
            Err(e) => Err(e),
        },
        Call::ListForSale {
            authorized,
            seller,
            token_id,
            price_xlm,
            price_usdc,
            xlm_usdc_rate,
        } => match w.list_for_sale(
            authorized,
            seller,
            token_id,
            price_xlm,
            price_usdc,
            xlm_usdc_rate,
        ).1 {
            Ok(id) => Ok(Some(id)),
            Err(e) => Err(e),
        },
        Call::Buy { authorized, buyer, listing_id, currency } => match w.buy(
            authorized,
            buyer,
            listing_id,
            currency,
        ).1 {
            Ok(_) => Ok(None),
            Err(e) => Err(e),
        },
        Call::CancelListing { authorized, seller, listing_id } => match w.cancel_listing(
            authorized,
            seller,
            listing_id,
        ).1 {
            Ok(_) => Ok(None),
            Err(e) => Err(e),
        },
        Call::CreateSwapOffer {
            authorized,
            offerer,
            offered_token_id,
            desired_token_id,
        } => match w.create_swap_offer(authorized, offerer, offered_token_id, desired_token_id).1 {
            Ok(id) => Ok(Some(id)),
            Err(e) => Err(e),
        },
        Call::AcceptSwap { authorized, acceptor, swap_id } => match w.accept_swap(
            authorized,
            acceptor,
            swap_id,
        ).1 {
            Ok(_) => Ok(None),
            Err(e) => Err(e),
        },
        Call::CancelSwap { authorized, offerer, swap_id } => match w.cancel_swap(
            authorized,
            offerer,
            swap_id,
        ).1 {
            Ok(_) => Ok(None),
            Err(e) => Err(e),
        },
        Call::Elsewhere { .. } => Ok(None),
    }
}

/// The world that a call leaves behind.
pub open spec fn after(w: World, call: Call) -> World {
    match call {
        Call::Initialize { authorized, admin, nft_contract, usdc_token, xlm_token } => w.initialize(
            authorized,
            admin,
            nft_contract,
            usdc_token,
            xlm_token,
        ).0,
        Call::ListForSale {
            authorized,
            seller,
            token_id,
            price_xlm,
            price_usdc,
            xlm_usdc_rate,
        } => w.list_for_sale(authorized, seller, token_id, price_xlm, price_usdc, xlm_usdc_rate).0,
        Call::Buy { authorized, buyer, listing_id, currency } => w.buy(
            authorized,
            buyer,
            listing_id,
            currency,
        ).0,
        Call::CancelListing { authorized, seller, listing_id } => w.cancel_listing(
            authorized,
            seller,
            listing_id,
        ).0,
        Call::CreateSwapOffer {
            authorized,
            offerer,
            offered_token_id,
            desired_token_id,
        } => w.create_swap_offer(authorized, offerer, offered_token_id, desired_token_id).0,
        Call::AcceptSwap { authorized, acceptor, swap_id } => w.accept_swap(
            authorized,
            acceptor,
            swap_id,
        ).0,
        Call::CancelSwap { authorized, offerer, swap_id } => w.cancel_swap(
            authorized,
            offerer,
            swap_id,
        ).0,
        Call::Elsewhere { owners, xlm, usdc } => World { owners, xlm, usdc, ..w },
    }
}

/// The world after a whole history of calls, the first call first.
pub open spec fn run(w: World, calls: Seq<Call>) -> World
    decreases calls.len(),
{
    if calls.len() == 0 {
        w
    } else {
        after(run(w, calls.drop_last()), calls.last())
    }
}

/// How many listings a history creates.
pub open spec fn listings_created(w: World, calls: Seq<Call>) -> nat
    decreases calls.len(),
{
    if calls.len() == 0 {
        0
    } else {
        let before = run(w, calls.drop_last());
        let earlier = listings_created(w, calls.drop_last());
        if calls.last() is ListForSale && reply(before, calls.last()) is Ok {
            earlier + 1
        } else {
            earlier
        }
    }
}

/// How many swap offers a history creates.
pub open spec fn swaps_created(w: World, calls: Seq<Call>) -> nat
    decreases calls.len(),
{
    if calls.len() == 0 {
        0
    } else {
        let before = run(w, calls.drop_last());
        let earlier = swaps_created(w, calls.drop_last());
        if calls.last() is CreateSwapOffer && reply(before, calls.last()) is Ok {
            earlier + 1
        } else {
            earlier
        }
    }
}

/// What holds of every marketplace that started empty: records have the
/// shape of their key; the configuration is there as a whole or not at all;
/// the stored listings are exactly those with an id below the listing
/// counter, and the stored swap offers exactly those below the swap counter;
/// every listing has two positive prices and every swap offer names two
/// different tokens.
pub open spec fn well_formed(w: World) -> bool {
    &&& forall|key: DataKey| #[trigger]
        w.records.contains_key(key) ==> key.accepts(w.records[key])
    &&& w.records.contains_key(DataKey::NftContract) == w.records.contains_key(DataKey::Admin)
    &&& forall|id: u64| #[trigger]
        w.records.contains_key(DataKey::Listing(id)) <==> id < w.total_listings()
    &&& forall|id: u64| #[trigger]
        w.records.contains_key(DataKey::SwapOffer(id)) <==> id < w.total_swaps()
    &&& !w.records.contains_key(DataKey::Admin) ==> w.total_listings() == 0 && w.total_swaps()
        == 0
    &&& forall|id: u64| #[trigger]
        w.records.contains_key(DataKey::Listing(id)) ==> w.listing(id)->0.price_xlm > 0
            && w.listing(id)->0.price_usdc > 0
    &&& forall|id: u64| #[trigger]
        w.records.contains_key(DataKey::SwapOffer(id)) ==> w.swap_offer(id)->0.offered_token_id
            != w.swap_offer(id)->0.desired_token_id
}

/// A world whose store is empty is well formed.
pub proof fn lemma_empty_is_well_formed(w: World)
    requires
        w.records == Map::<DataKey, Record>::empty(),
    ensures
        well_formed(w),
{
}

/// Every call keeps a well-formed world well formed.
pub proof fn lemma_call_keeps_well_formed(w: World, call: Call)
    requires
        well_formed(w),
    ensures
        well_formed(after(w, call)),
{
}

/// Every history keeps a well-formed world well formed.
pub proof fn lemma_run_keeps_well_formed(w: World, calls: Seq<Call>)
    requires
        well_formed(w),
    ensures
        well_formed(run(w, calls)),
    decreases calls.len(),
{
    if calls.len() > 0 {
        lemma_run_keeps_well_formed(w, calls.drop_last());
        lemma_call_keeps_well_formed(run(w, calls.drop_last()), calls.last());
    }
}

} // verus!
