//! What holds of every marketplace, proved from the model of its calls.
use vstd::prelude::*;
use crate::history::{
    after, listings_created, lemma_call_keeps_well_formed, lemma_run_keeps_well_formed, reply,
    run, swaps_created, well_formed, Call,
};
use crate::host::World;
use crate::types::{Address, Currency, DataKey, ListingInfo, MarketError, Record, SwapOffer};

verus! {

/// Whether the acting address has consented to the call. What happens
/// without the marketplace has no acting address and counts as consented.
pub open spec fn consented(call: Call) -> bool {
    match call {
        Call::ListForSale { authorized, .. } => authorized,
        Call::Buy { authorized, .. } => authorized,
        Call::CancelListing { authorized, .. } => authorized,
        Call::CreateSwapOffer { authorized, .. } => authorized,
        Call::AcceptSwap { authorized, .. } => authorized,
        Call::CancelSwap { authorized, .. } => authorized,
        Call::Initialize { authorized, .. } => authorized,
        Call::Elsewhere { .. } => true,
    }
}

/// Whether the call is a purchase or a cancellation of listing `listing_id`.
pub open spec fn settles_listing(call: Call, listing_id: u64) -> bool {
    match call {
        Call::Buy { listing_id: id, .. } => id == listing_id,
        Call::CancelListing { listing_id: id, .. } => id == listing_id,
        _ => false,
    }
}

/// Whether the call is an acceptance or a cancellation of offer `swap_id`.
pub open spec fn settles_swap(call: Call, swap_id: u64) -> bool {
    match call {
        Call::AcceptSwap { swap_id: id, .. } => id == swap_id,
        Call::CancelSwap { swap_id: id, .. } => id == swap_id,
        _ => false,
    }
}

/// A refused call changes nothing.
pub proof fn law_refusal_changes_nothing(w: World, call: Call)
    requires
        reply(w, call) is Err,
    ensures
        after(w, call) == w,
{
}

proof fn lemma_call_counts_its_creation(w: World, call: Call)
    requires
        !w.records.contains_key(DataKey::Admin) ==> w.total_listings() == 0 && w.total_swaps()
            == 0,
    ensures
        after(w, call).total_listings() == w.total_listings() + (if call is ListForSale && reply(
            w,
            call,
        ) is Ok {
            1int
        } else {
            0int
        }),
        after(w, call).total_swaps() == w.total_swaps() + (if call is CreateSwapOffer && reply(
            w,
            call,
        ) is Ok {
            1int
        } else {
            0int
        }),
{
    match call {
        Call::Initialize { .. } => {},
        Call::ListForSale { .. } => {},
        Call::Buy { .. } => {},
        Call::CancelListing { .. } => {},
        Call::CreateSwapOffer { .. } => {},
        Call::AcceptSwap { .. } => {},
        Call::CancelSwap { .. } => {},
        Call::Elsewhere { .. } => {},
    }
}

/// Over any history, the listing counter grows by the number of listings
/// created and the swap counter by the number of swap offers created.
pub proof fn law_counters_count_creations(w: World, calls: Seq<Call>)
    requires
        well_formed(w),
    ensures
        run(w, calls).total_listings() == w.total_listings() + listings_created(w, calls),
        run(w, calls).total_swaps() == w.total_swaps() + swaps_created(w, calls),
    decreases calls.len(),
{
    if calls.len() > 0 {
        let before = run(w, calls.drop_last());
        law_counters_count_creations(w, calls.drop_last());
        lemma_run_keeps_well_formed(w, calls.drop_last());
        assert(!before.records.contains_key(DataKey::Admin) ==> before.total_listings() == 0
            && before.total_swaps() == 0);
        lemma_call_counts_its_creation(before, calls.last());
    }
}

/// In a marketplace that started empty, a created listing gets as its id
/// the number of listings created before it, and a created swap offer the
/// number of swap offers created before it: ids run 0, 1, 2, … in creation
/// order, separately for each kind.
pub proof fn law_id_is_count_of_earlier_creations(w: World, calls: Seq<Call>, call: Call, id: u64)
    requires
        w.records == Map::<DataKey, Record>::empty(),
        reply(run(w, calls), call) == Ok::<Option<u64>, MarketError>(Some(id)),
    ensures
        call is ListForSale ==> id == listings_created(w, calls),
        call is CreateSwapOffer ==> id == swaps_created(w, calls),
        call is ListForSale || call is CreateSwapOffer,
{
    law_counters_count_creations(w, calls);
}

/// Once a listing is closed, no call opens or changes it again.
pub proof fn law_closed_listing_stays_closed(
    w: World,
    calls: Seq<Call>,
    listing_id: u64,
    listing: ListingInfo,
)
    requires
        well_formed(w),
        w.listing(listing_id) == Some(listing),
        !listing.active,
    ensures
        run(w, calls).listing(listing_id) == Some(listing),
    decreases calls.len(),
{
    if calls.len() > 0 {
        law_closed_listing_stays_closed(w, calls.drop_last(), listing_id, listing);
        lemma_run_keeps_well_formed(w, calls.drop_last());
    }
}

/// Once a swap offer is closed, no call opens or changes it again.
pub proof fn law_closed_swap_stays_closed(
    w: World,
    calls: Seq<Call>,
    swap_id: u64,
    offer: SwapOffer,
)
    requires
        well_formed(w),
        w.swap_offer(swap_id) == Some(offer),
        !offer.active,
    ensures
        run(w, calls).swap_offer(swap_id) == Some(offer),
    decreases calls.len(),
{
    if calls.len() > 0 {
        law_closed_swap_stays_closed(w, calls.drop_last(), swap_id, offer);
        lemma_run_keeps_well_formed(w, calls.drop_last());
    }
}

/// A listing is settled at most once. After a purchase or a cancellation
/// of a listing has succeeded, and whatever happens in between, every
/// further purchase or cancellation of it is refused and changes nothing.
/// The refusal is `ListingInactive` whenever the call has the consent of
/// its acting address and, for a cancellation, comes from the seller;
/// otherwise it is `Unauthorized`.
pub proof fn law_listing_settles_once(
    w: World,
    first: Call,
    between: Seq<Call>,
    second: Call,
    listing_id: u64,
)
    requires
        well_formed(w),
        settles_listing(first, listing_id),
        reply(w, first) is Ok,
        settles_listing(second, listing_id),
    ensures
        ({
            let then = run(after(w, first), between);
            &&& after(then, second) == then
            &&& reply(then, second) is Err
            &&& then.listing(listing_id) is Some
            &&& consented(second) && (second is CancelListing ==> second->CancelListing_seller
                == then.listing(listing_id)->0.seller) ==> reply(then, second) == Err::<
                Option<u64>,
                MarketError,
            >(MarketError::ListingInactive)
            &&& !consented(second) || (second is CancelListing && second->CancelListing_seller
                != then.listing(listing_id)->0.seller) ==> reply(then, second) == Err::<
                Option<u64>,
                MarketError,
            >(MarketError::Unauthorized)
        }),
{
    let closed = after(w, first).listing(listing_id)->0;
    lemma_call_keeps_well_formed(w, first);
    law_closed_listing_stays_closed(after(w, first), between, listing_id, closed);
}

/// A swap offer is settled at most once. After an acceptance or a
/// cancellation of an offer has succeeded, and whatever happens in between,
/// every further acceptance or cancellation of it is refused and changes
/// nothing. The refusal is `SwapInactive` whenever the call has the consent
/// of its acting address and, for a cancellation, comes from the offerer;
/// otherwise it is `Unauthorized`.
pub proof fn law_swap_settles_once(
    w: World,
    first: Call,
    between: Seq<Call>,
    second: Call,
    swap_id: u64,
)
    requires
        well_formed(w),
        settles_swap(first, swap_id),
        reply(w, first) is Ok,
        settles_swap(second, swap_id),
    ensures
        ({
            let then = run(after(w, first), between);
            &&& after(then, second) == then
            &&& reply(then, second) is Err
            &&& then.swap_offer(swap_id) is Some
            &&& consented(second) && (second is CancelSwap ==> second->CancelSwap_offerer
                == then.swap_offer(swap_id)->0.offerer) ==> reply(then, second) == Err::<
                Option<u64>,
                MarketError,
            >(MarketError::SwapInactive)
            &&& !consented(second) || (second is CancelSwap && second->CancelSwap_offerer
                != then.swap_offer(swap_id)->0.offerer) ==> reply(then, second) == Err::<
                Option<u64>,
                MarketError,
            >(MarketError::Unauthorized)
        }),
{
    let closed = after(w, first).swap_offer(swap_id)->0;
    lemma_call_keeps_well_formed(w, first);
    law_closed_swap_stays_closed(after(w, first), between, swap_id, closed);
}

/// A successful purchase by anyone but the seller moves exactly the listed
/// price in the chosen currency from the buyer to the seller and nothing
/// else on either ledger, makes the buyer the owner of the token and no
/// other token change hands, and closes the listing.
pub proof fn law_purchase_settles_exactly(
    w: World,
    authorized: bool,
    buyer: Address,
    listing_id: u64,
    currency: Currency,
)
    requires
        w.buy(authorized, buyer, listing_id, currency).1 is Ok,
        w.listing(listing_id) is Some ==> buyer != w.listing(listing_id)->0.seller,
    ensures
        ({
            let then = w.buy(authorized, buyer, listing_id, currency).0;
            let listing = w.listing(listing_id)->0;
            let price = listing.spec_price(currency);
            let other = match currency {
                Currency::Xlm => Currency::Usdc,
                Currency::Usdc => Currency::Xlm,
            };
            &&& authorized
            &&& w.listing(listing_id) == Some(listing)
            &&& listing.active
            &&& then.ledger(currency)[listing.seller] == w.ledger(currency)[listing.seller] + price
            &&& then.ledger(currency)[buyer] == w.ledger(currency)[buyer] - price
            &&& forall|who: Address|
                who != buyer && who != listing.seller ==> then.ledger(currency)[who] == w.ledger(
                    currency,
                )[who]
            &&& then.ledger(other) == w.ledger(other)
            &&& w.owner_of(listing.token_id) == Some(w.contract)
            &&& then.owner_of(listing.token_id) == Some(buyer)
            &&& forall|token_id: u64|
                token_id != listing.token_id ==> then.owner_of(token_id) == w.owner_of(token_id)
            &&& then.listing(listing_id) == Some(ListingInfo { active: false, ..listing })
        }),
{
}

/// A successful acceptance exchanges the two tokens: the acceptor, who
/// owned the desired token, now owns the offered one, the offerer now owns
/// the desired one, no other token changes hands, and the offer is closed.
/// The two tokens differ in every well-formed world, and so in every
/// marketplace that started empty. Where neither party is the marketplace
/// itself, neither token remains in its custody.
pub proof fn law_swap_exchanges_ownership(
    w: World,
    authorized: bool,
    acceptor: Address,
    swap_id: u64,
)
    requires
        w.accept_swap(authorized, acceptor, swap_id).1 is Ok,
    ensures
        ({
            let then = w.accept_swap(authorized, acceptor, swap_id).0;
            let offer = w.swap_offer(swap_id)->0;
            &&& authorized
            &&& w.swap_offer(swap_id) == Some(offer)
            &&& offer.active
            &&& w.owner_of(offer.desired_token_id) == Some(acceptor)
            &&& then.owner_of(offer.desired_token_id) == Some(offer.offerer)
            &&& offer.offered_token_id != offer.desired_token_id ==> w.owner_of(
                offer.offered_token_id,
            ) == Some(w.contract) && then.owner_of(offer.offered_token_id) == Some(acceptor)
            &&& acceptor != w.contract || well_formed(w) ==> offer.offered_token_id
                != offer.desired_token_id
            &&& acceptor != w.contract && offer.offerer != w.contract ==> then.owner_of(
                offer.offered_token_id,
            ) != Some(w.contract) && then.owner_of(offer.desired_token_id) != Some(w.contract)
            &&& forall|token_id: u64|
                token_id != offer.offered_token_id && token_id != offer.desired_token_id
                    ==> then.owner_of(token_id) == w.owner_of(token_id)
            &&& then.swap_offer(swap_id) == Some(SwapOffer { active: false, ..offer })
            &&& then.xlm == w.xlm && then.usdc == w.usdc
        }),
{
}

/// A call without the consent of its acting address is refused with
/// `Unauthorized` and changes nothing.
pub proof fn law_consent_is_required(w: World, call: Call)
    requires
        !consented(call),
    ensures
        reply(w, call) == Err::<Option<u64>, MarketError>(MarketError::Unauthorized),
        after(w, call) == w,
{
}

/// Only the address that controls a record cancels it: a cancellation of a
/// stored listing by anyone but its seller, or of a stored swap offer by
/// anyone but its offerer, is refused with `Unauthorized` and changes
/// nothing, whether the record is active or not and whoever consented.
pub proof fn law_only_the_owner_cancels(w: World, authorized: bool, caller: Address, id: u64)
    ensures
        w.listing(id) is Some && w.listing(id)->0.seller != caller ==> w.cancel_listing(
            authorized,
            caller,
            id,
        ) == (w, Err::<(), MarketError>(MarketError::Unauthorized)),
        w.swap_offer(id) is Some && w.swap_offer(id)->0.offerer != caller ==> w.cancel_swap(
            authorized,
            caller,
            id,
        ) == (w, Err::<(), MarketError>(MarketError::Unauthorized)),
{
}

/// Whether `then` holds an administrator and the same four configuration
/// records as `w`.
pub open spec fn same_configuration(w: World, then: World) -> bool {
    &&& then.records.contains_key(DataKey::Admin)
    &&& then.records.get(DataKey::Admin) == w.records.get(DataKey::Admin)
    &&& then.records.get(DataKey::NftContract) == w.records.get(DataKey::NftContract)
    &&& then.records.get(DataKey::UsdcToken) == w.records.get(DataKey::UsdcToken)
    &&& then.records.get(DataKey::XlmToken) == w.records.get(DataKey::XlmToken)
}

proof fn lemma_call_keeps_configuration(w: World, call: Call)
    requires
        w.records.contains_key(DataKey::Admin),
    ensures
        same_configuration(w, after(w, call)),
{
    match call {
        Call::Initialize { .. } => {},
        Call::ListForSale { .. } => {},
        Call::Buy { .. } => {},
        Call::CancelListing { .. } => {},
        Call::CreateSwapOffer { .. } => {},
        Call::AcceptSwap { .. } => {},
        Call::CancelSwap { .. } => {},
        Call::Elsewhere { .. } => {},
    }
}

/// Once initialization has succeeded, no call changes the configuration.
pub proof fn law_configuration_is_immutable(w: World, calls: Seq<Call>)
    requires
        w.records.contains_key(DataKey::Admin),
    ensures
        same_configuration(w, run(w, calls)),
    decreases calls.len(),
{
    if calls.len() > 0 {
        law_configuration_is_immutable(w, calls.drop_last());
        lemma_call_keeps_configuration(run(w, calls.drop_last()), calls.last());
    }
}

/// Initialization happens once. After it has succeeded, and whatever
/// happens in between, every further initialization is refused and changes
/// nothing, and the configuration is still the one that was written first.
/// The refusal is `AlreadyInitialized` whenever the call has the consent of
/// the administrator it names; otherwise it is `Unauthorized`.
pub proof fn law_initialization_is_single_shot(
    w: World,
    authorized: bool,
    admin: Address,
    nft_contract: Address,
    usdc_token: Address,
    xlm_token: Address,
    between: Seq<Call>,
    second: Call,
)
    requires
        w.initialize(authorized, admin, nft_contract, usdc_token, xlm_token).1 is Ok,
        second is Initialize,
    ensures
        ({
            let then = run(
                w.initialize(authorized, admin, nft_contract, usdc_token, xlm_token).0,
                between,
            );
            &&& authorized
            &&& reply(then, second) == Err::<Option<u64>, MarketError>(
                if consented(second) {
                    MarketError::AlreadyInitialized
                } else {
                    MarketError::Unauthorized
                },
            )
            &&& after(then, second) == then
            &&& then.records.get(DataKey::Admin) == Some(Record::Address(admin))
            &&& then.records.get(DataKey::NftContract) == Some(Record::Address(nft_contract))
            &&& then.records.get(DataKey::UsdcToken) == Some(Record::Address(usdc_token))
            &&& then.records.get(DataKey::XlmToken) == Some(Record::Address(xlm_token))
        }),
{
    law_configuration_is_immutable(
        w.initialize(authorized, admin, nft_contract, usdc_token, xlm_token).0,
        between,
    );
}

/// The registry moves a token only for its owner, and only where the owner
/// has authorized the movement: without that the movement is refused with
/// `Unauthorized`, and for anyone but the owner with `NotOwner`; either way
/// nothing changes.
pub proof fn law_custody_moves_need_owner_and_consent(
    w: World,
    authorized: bool,
    from: Address,
    to: Address,
    token_id: u64,
)
    ensures
        ({
            let (then, r) = w.nft_transfer(authorized, from, to, token_id);
            &&& r is Ok <==> authorized && w.owner_of(token_id) == Some(from)
            &&& r is Ok ==> then.owner_of(token_id) == Some(to) && then.records == w.records
                && then.xlm == w.xlm && then.usdc == w.usdc && forall|other: u64|
                other != token_id ==> then.owner_of(other) == w.owner_of(other)
            &&& !authorized ==> r == Err::<(), MarketError>(MarketError::Unauthorized)
            &&& authorized && w.owner_of(token_id) != Some(from) ==> r == Err::<(), MarketError>(
                MarketError::NotOwner,
            )
            &&& r is Err ==> then == w
        }),
{
}

/// In a marketplace that started empty, whatever its history, the stored
/// listings are exactly those with an id below the number of listings
/// created, and the stored swap offers exactly those with an id below the
/// number of swap offers created: no id is skipped and none is used twice.
pub proof fn law_ids_have_no_gaps(w: World, calls: Seq<Call>)
    requires
        w.records == Map::<DataKey, Record>::empty(),
    ensures
        forall|id: u64|
            run(w, calls).listing(id) is Some <==> id < listings_created(w, calls),
        forall|id: u64|
            run(w, calls).swap_offer(id) is Some <==> id < swaps_created(w, calls),
{
    let then = run(w, calls);
    lemma_run_keeps_well_formed(w, calls);
    law_counters_count_creations(w, calls);
    assert forall|id: u64| then.listing(id) is Some <==> id < listings_created(w, calls) by {
        assert(then.records.contains_key(DataKey::Listing(id)) <==> id < then.total_listings());
    }
    assert forall|id: u64| then.swap_offer(id) is Some <==> id < swaps_created(w, calls) by {
        assert(then.records.contains_key(DataKey::SwapOffer(id)) <==> id < then.total_swaps());
    }
}

/// In a marketplace that started empty, whatever its history, every stored
/// listing has two positive prices and every stored swap offer names two
/// different tokens.
pub proof fn law_records_are_valid(w: World, calls: Seq<Call>, id: u64)
    requires
        w.records == Map::<DataKey, Record>::empty(),
    ensures
        run(w, calls).listing(id) matches Some(listing) ==> listing.price_xlm > 0
            && listing.price_usdc > 0,
        run(w, calls).swap_offer(id) matches Some(offer) ==> offer.offered_token_id
            != offer.desired_token_id,
{
    let then = run(w, calls);
    lemma_run_keeps_well_formed(w, calls);
    assert(then.listing(id) is Some ==> then.records.contains_key(DataKey::Listing(id)));
    assert(then.swap_offer(id) is Some ==> then.records.contains_key(DataKey::SwapOffer(id)));
}

/// Whether the marketplace holds in escrow what its active records say:
/// the token of every active listing and the offered token of every active
/// swap offer is owned by the marketplace, none of these records belongs to
/// the marketplace itself, and no token is held for two active records.
pub open spec fn in_custody(w: World) -> bool {
    &&& forall|id: u64|
        (#[trigger] w.listing(id)) is Some && w.listing(id)->0.active ==> w.owner_of(
            w.listing(id)->0.token_id,
        ) == Some(w.contract) && w.listing(id)->0.seller != w.contract
    &&& forall|id: u64|
        (#[trigger] w.swap_offer(id)) is Some && w.swap_offer(id)->0.active ==> w.owner_of(
            w.swap_offer(id)->0.offered_token_id,
        ) == Some(w.contract) && w.swap_offer(id)->0.offerer != w.contract
    &&& forall|i: u64, j: u64|
        #![trigger w.listing(i), w.listing(j)]
        i != j && w.listing(i) is Some && w.listing(j) is Some && w.listing(i)->0.active
            && w.listing(j)->0.active ==> w.listing(i)->0.token_id != w.listing(j)->0.token_id
    &&& forall|i: u64, j: u64|
        #![trigger w.swap_offer(i), w.swap_offer(j)]
        i != j && w.swap_offer(i) is Some && w.swap_offer(j) is Some && w.swap_offer(i)->0.active
            && w.swap_offer(j)->0.active ==> w.swap_offer(i)->0.offered_token_id
            != w.swap_offer(j)->0.offered_token_id
    &&& forall|i: u64, j: u64|
        #![trigger w.listing(i), w.swap_offer(j)]
        w.listing(i) is Some && w.swap_offer(j) is Some && w.listing(i)->0.active
            && w.swap_offer(j)->0.active ==> w.listing(i)->0.token_id != w.swap_offer(
            j,
        )->0.offered_token_id
}

/// Whether the call is one of the marketplace's own entry points and its
/// acting address is not the marketplace itself.
pub open spec fn by_a_client(w: World, call: Call) -> bool {
    match call {
        Call::Initialize { .. } => true,
        Call::ListForSale { seller, .. } => seller != w.contract,
        Call::Buy { buyer, .. } => buyer != w.contract,
        Call::CancelListing { seller, .. } => seller != w.contract,
        Call::CreateSwapOffer { offerer, .. } => offerer != w.contract,
        Call::AcceptSwap { acceptor, .. } => acceptor != w.contract,
        Call::CancelSwap { offerer, .. } => offerer != w.contract,
        Call::Elsewhere { .. } => false,
    }
}

proof fn lemma_run_keeps_contract(w: World, calls: Seq<Call>)
    ensures
        run(w, calls).contract == w.contract,
    decreases calls.len(),
{
    if calls.len() > 0 {
        lemma_run_keeps_contract(w, calls.drop_last());
    }
}

proof fn lemma_call_keeps_custody(w: World, call: Call)
    requires
        well_formed(w),
        in_custody(w),
        by_a_client(w, call),
    ensures
        in_custody(after(w, call)),
{
    let then = after(w, call);
    if reply(w, call) is Err {
        law_refusal_changes_nothing(w, call);
    } else {
        match call {
            Call::Initialize { .. } => {
                assert forall|id: u64| then.listing(id) is None && then.swap_offer(id) is None by {
                    assert(!w.records.contains_key(DataKey::Listing(id)));
                    assert(!w.records.contains_key(DataKey::SwapOffer(id)));
                }
            },
            Call::ListForSale { .. } => {
                lemma_listing_keeps_custody(w, call);
            },
            Call::Buy { .. } => {
                lemma_settling_a_listing_keeps_custody(w, call);
            },
            Call::CancelListing { .. } => {
                lemma_settling_a_listing_keeps_custody(w, call);
            },
            Call::CreateSwapOffer { .. } => {
                lemma_offering_keeps_custody(w, call);
            },
            Call::AcceptSwap { .. } => {
                lemma_settling_a_swap_keeps_custody(w, call);
            },
            Call::CancelSwap { .. } => {
                lemma_settling_a_swap_keeps_custody(w, call);
            },
            Call::Elsewhere { .. } => {},
        }
    }
}

proof fn lemma_listing_keeps_custody(w: World, call: Call)
    requires
        well_formed(w),
        in_custody(w),
        by_a_client(w, call),
        call is ListForSale,
        reply(w, call) is Ok,
    ensures
        in_custody(after(w, call)),
{
    let then = after(w, call);
    let new_id = w.total_listings();
    let token = call->ListForSale_token_id;
    assert(!w.records.contains_key(DataKey::Listing(new_id)));
    assert(w.owner_of(token) == Some(call->ListForSale_seller));
    assert forall|id: u64| id != new_id implies then.listing(id) == w.listing(id) by {}
    assert forall|id: u64| then.swap_offer(id) == w.swap_offer(id) by {}
    assert forall|t: u64| t != token implies then.owner_of(t) == w.owner_of(t) by {}
    assert(then.owner_of(token) == Some(w.contract));
}

proof fn lemma_offering_keeps_custody(w: World, call: Call)
    requires
        well_formed(w),
        in_custody(w),
        by_a_client(w, call),
        call is CreateSwapOffer,
        reply(w, call) is Ok,
    ensures
        in_custody(after(w, call)),
{
    let then = after(w, call);
    let new_id = w.total_swaps();
    let token = call->CreateSwapOffer_offered_token_id;
    assert(!w.records.contains_key(DataKey::SwapOffer(new_id)));
    assert(w.owner_of(token) == Some(call->CreateSwapOffer_offerer));
    assert forall|id: u64| id != new_id implies then.swap_offer(id) == w.swap_offer(id) by {}
    assert forall|id: u64| then.listing(id) == w.listing(id) by {}
    assert forall|t: u64| t != token implies then.owner_of(t) == w.owner_of(t) by {}
    assert(then.owner_of(token) == Some(w.contract));
}

proof fn lemma_settling_a_listing_keeps_custody(w: World, call: Call)
    requires
        well_formed(w),
        in_custody(w),
        by_a_client(w, call),
        call is Buy || call is CancelListing,
        reply(w, call) is Ok,
    ensures
        in_custody(after(w, call)),
{
    let then = after(w, call);
    let settled = match call {
        Call::Buy { listing_id, .. } => listing_id,
        Call::CancelListing { listing_id, .. } => listing_id,
        _ => 0,
    };
    let listing = w.listing(settled)->0;
    assert(w.listing(settled) == Some(listing) && listing.active);
    assert(then.listing(settled) == Some(listing.spec_closed()));
    assert forall|id: u64| id != settled implies then.listing(id) == w.listing(id) by {}
    assert forall|id: u64| then.swap_offer(id) == w.swap_offer(id) by {}
    assert forall|t: u64| t != listing.token_id implies then.owner_of(t) == w.owner_of(t) by {}
}

proof fn lemma_settling_a_swap_keeps_custody(w: World, call: Call)
    requires
        well_formed(w),
        in_custody(w),
        by_a_client(w, call),
        call is AcceptSwap || call is CancelSwap,
        reply(w, call) is Ok,
    ensures
        in_custody(after(w, call)),
{
    let then = after(w, call);
    let settled = match call {
        Call::AcceptSwap { swap_id, .. } => swap_id,
        Call::CancelSwap { swap_id, .. } => swap_id,
        _ => 0,
    };
    let offer = w.swap_offer(settled)->0;
    assert(w.swap_offer(settled) == Some(offer) && offer.active);
    assert(w.records.contains_key(DataKey::SwapOffer(settled)));
    assert(offer.offered_token_id != offer.desired_token_id);
    assert(then.swap_offer(settled) == Some(offer.spec_closed()));
    assert forall|id: u64| id != settled implies then.swap_offer(id) == w.swap_offer(id) by {}
    assert forall|id: u64| then.listing(id) == w.listing(id) by {}
    if call is AcceptSwap {
        assert(w.owner_of(offer.desired_token_id) == Some(call->AcceptSwap_acceptor));
    }
    assert forall|t: u64|
        t != offer.offered_token_id && t != offer.desired_token_id implies then.owner_of(t)
        == w.owner_of(t) by {}
    assert(call is CancelSwap ==> then.owner_of(offer.desired_token_id) == w.owner_of(
        offer.desired_token_id,
    ));
}

/// The marketplace holds what its active records say. In a marketplace
/// that started empty, and over every history of its own entry points in
/// which the marketplace itself is never the acting address, the token of
/// every active listing and the offered token of every active swap offer
/// is owned by the marketplace, and no token is held for two active
/// records. What happens to the registry without the marketplace is not
/// part of such a history.
pub proof fn law_active_records_are_in_custody(w: World, calls: Seq<Call>)
    requires
        well_formed(w),
        in_custody(w),
        forall|i: int| 0 <= i < calls.len() ==> by_a_client(w, #[trigger] calls[i]),
    ensures
        in_custody(run(w, calls)),
    decreases calls.len(),
{
    if calls.len() > 0 {
        let earlier = calls.drop_last();
        assert forall|i: int| 0 <= i < earlier.len() implies by_a_client(
            w,
            #[trigger] earlier[i],
        ) by {
            assert(earlier[i] == calls[i]);
        }
        law_active_records_are_in_custody(w, earlier);
        lemma_run_keeps_well_formed(w, earlier);
        lemma_run_keeps_contract(w, earlier);
        let before = run(w, earlier);
        assert(by_a_client(w, calls[calls.len() - 1]));
        assert(by_a_client(before, calls.last()));
        lemma_call_keeps_custody(before, calls.last());
    }
}

/// A world whose store is empty holds nothing in escrow and owes nothing.
pub proof fn law_empty_world_is_in_custody(w: World)
    requires
        w.records == Map::<DataKey, Record>::empty(),
    ensures
        well_formed(w),
        in_custody(w),
{
}

} // verus!
