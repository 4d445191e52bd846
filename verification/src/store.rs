//! The persistent record store of the marketplace and its identifier allocator.
use std::collections::HashMap;
use vstd::prelude::*;
use crate::types::{Address, DataKey, ListingInfo, MarketError, Record, SwapOffer};

verus! {

/// The two independent identifier sequences.
#[derive(Clone, Copy, Debug, PartialEq, Eq, Structural)]
pub enum IdKind {
    Listing,
    Swap,
}

impl IdKind {
    /// The key under which the next identifier of this kind is kept.
    pub open spec fn spec_key(&self) -> DataKey {
        match self {
            IdKind::Listing => DataKey::NextListingId,
            IdKind::Swap => DataKey::NextSwapId,
        }
    }

    #[verifier::when_used_as_spec(spec_key)]
    pub fn key(&self) -> (key: DataKey)
        ensures
            key == self.spec_key(),
    {
        match self {
            IdKind::Listing => DataKey::NextListingId,
            IdKind::Swap => DataKey::NextSwapId,
        }
    }
}

/// The counter that a store holds under `key`, zero where it holds none.
pub open spec fn counter_at(records: Map<DataKey, Record>, key: DataKey) -> u64 {
    match records.get(key) {
        Some(Record::Counter(n)) => n,
        _ => 0,
    }
}

/// The identifier that the allocator hands out next, and the counter it
/// leaves behind; refused once the sequence is exhausted.
pub open spec fn allocation(counter: Option<u64>) -> Result<(u64, u64), MarketError> {
    let current = match counter {
        Some(n) => n,
        None => 0,
    };
    if current == u64::MAX {
        Err(MarketError::IdOverflow)
    } else {
        Ok((current, (current + 1) as u64))
    }
}

/// Decides one allocation from the stored counter: the identifier to hand
/// out and the counter to write back.
pub fn allocate(counter: Option<u64>) -> (r: Result<(u64, u64), MarketError>)
    ensures
        r == allocation(counter),
{
    let current: u64 = match counter {
        Some(n) => n,
        None => 0,
    };
    if current == u64::MAX {
        Err(MarketError::IdOverflow)
    } else {
        Ok((current, current + 1))
    }
}

/// A typed key-value store: configuration and counters, and the listing and
/// swap records by id.
pub struct RecordStore {
    admin: Option<Address>,
    nft_contract: Option<Address>,
    usdc_token: Option<Address>,
    xlm_token: Option<Address>,
    next_listing_id: Option<u64>,
    next_swap_id: Option<u64>,
    listings: HashMap<u64, ListingInfo>,
    swaps: HashMap<u64, SwapOffer>,
}

spec fn address_record(slot: Option<Address>) -> Option<Record> {
    match slot {
        Some(a) => Some(Record::Address(a)),
        None => None,
    }
}

spec fn counter_record(slot: Option<u64>) -> Option<Record> {
    match slot {
        Some(n) => Some(Record::Counter(n)),
        None => None,
    }
}

impl RecordStore {
    spec fn entry(&self, key: DataKey) -> Option<Record> {
        match key {
            DataKey::Admin => address_record(self.admin),
            DataKey::NftContract => address_record(self.nft_contract),
            DataKey::UsdcToken => address_record(self.usdc_token),
            DataKey::XlmToken => address_record(self.xlm_token),
            DataKey::NextListingId => counter_record(self.next_listing_id),
            DataKey::NextSwapId => counter_record(self.next_swap_id),
            DataKey::Listing(id) => if self.listings@.contains_key(id) {
                Some(Record::Listing(self.listings@[id]))
            } else {
                None
            },
            DataKey::SwapOffer(id) => if self.swaps@.contains_key(id) {
                Some(Record::Swap(self.swaps@[id]))
            } else {
                None
            },
        }
    }
}

impl View for RecordStore {
    type V = Map<DataKey, Record>;

    /// The records that the store holds, by key.
    closed spec fn view(&self) -> Map<DataKey, Record> {
        Map::new(|key: DataKey| self.entry(key) is Some, |key: DataKey| self.entry(key)->0)
    }
}

impl RecordStore {
    /// A store that holds nothing.
    pub fn new() -> (store: RecordStore)
        ensures
            store@ == Map::<DataKey, Record>::empty(),
    {
        let store = RecordStore {
            admin: None,
            nft_contract: None,
            usdc_token: None,
            xlm_token: None,
            next_listing_id: None,
            next_swap_id: None,
            listings: HashMap::new(),
            swaps: HashMap::new(),
        };
        assert(store@ =~= Map::<DataKey, Record>::empty());
        store
    }

    /// Every record has the shape that its key accepts.
    pub proof fn lemma_well_typed(&self)
        ensures
            forall|key: DataKey| #[trigger] self@.contains_key(key) ==> key.accepts(self@[key]),
    {
    }

    /// Whether a record is stored under `key`.
    pub fn has(&self, key: DataKey) -> (present: bool)
        ensures
            present == self@.contains_key(key),
    {
        self.get(key).is_some()
    }

    /// The record stored under `key`, if any.
    pub fn get(&self, key: DataKey) -> (record: Option<Record>)
        ensures
            record == self@.get(key),
    {
        let record = match key {
            DataKey::Admin => wrap_address(self.admin),
            DataKey::NftContract => wrap_address(self.nft_contract),
            DataKey::UsdcToken => wrap_address(self.usdc_token),
            DataKey::XlmToken => wrap_address(self.xlm_token),
            DataKey::NextListingId => wrap_counter(self.next_listing_id),
            DataKey::NextSwapId => wrap_counter(self.next_swap_id),
            DataKey::Listing(id) => match self.listings.get(&id) {
                Some(listing) => Some(Record::Listing(*listing)),
                None => None,
            },
            DataKey::SwapOffer(id) => match self.swaps.get(&id) {
                Some(offer) => Some(Record::Swap(*offer)),
                None => None,
            },
        };
        assert(record == self.entry(key));
        record
    }

    /// Stores `record` under `key`, replacing what was there, and says
    /// whether it did: a record of a shape that the key does not accept is
    /// not stored.
    pub fn set(&mut self, key: DataKey, record: Record) -> (stored: bool)
        ensures
            stored == key.accepts(record),
            final(self)@ == (if stored {
                old(self)@.insert(key, record)
            } else {
                old(self)@
            }),
    {
        let stored = match (key, record) {
            (DataKey::Admin, Record::Address(a)) => {
                self.admin = Some(a);
                true
            },
            (DataKey::NftContract, Record::Address(a)) => {
                self.nft_contract = Some(a);
                true
            },
            (DataKey::UsdcToken, Record::Address(a)) => {
                self.usdc_token = Some(a);
                true
            },
            (DataKey::XlmToken, Record::Address(a)) => {
                self.xlm_token = Some(a);
                true
            },
            (DataKey::NextListingId, Record::Counter(n)) => {
                self.next_listing_id = Some(n);
                true
            },
            (DataKey::NextSwapId, Record::Counter(n)) => {
                self.next_swap_id = Some(n);
                true
            },
            (DataKey::Listing(id), Record::Listing(listing)) => {
                self.listings.insert(id, listing);
                true
            },
            (DataKey::SwapOffer(id), Record::Swap(offer)) => {
                self.swaps.insert(id, offer);
                true
            },
            _ => false,
        };
        proof {
            if stored {
                assert forall|k: DataKey| self.entry(k) == (if k == key {
                    Some(record)
                } else {
                    old(self).entry(k)
                }) by {}
                assert(self@ =~= old(self)@.insert(key, record));
            } else {
                assert(self@ =~= old(self)@);
            }
        }
        stored
    }

    /// The address stored under `key`, if the key holds one.
    pub fn address(&self, key: DataKey) -> (address: Option<Address>)
        ensures
            address == (match self@.get(key) {
                Some(Record::Address(a)) => Some(a),
                _ => None,
            }),
    {
        match self.get(key) {
            Some(Record::Address(a)) => Some(a),
            _ => None,
        }
    }

    /// The counter stored under `key`, if the key holds one.
    pub fn counter(&self, key: DataKey) -> (counter: Option<u64>)
        ensures
            counter == (match self@.get(key) {
                Some(Record::Counter(n)) => Some(n),
                _ => None,
            }),
    {
        match self.get(key) {
            Some(Record::Counter(n)) => Some(n),
            _ => None,
        }
    }

    /// The listing stored under `listing_id`, if any.
    pub fn listing(&self, listing_id: u64) -> (listing: Option<ListingInfo>)
        ensures
            listing == (match self@.get(DataKey::Listing(listing_id)) {
                Some(Record::Listing(l)) => Some(l),
                _ => None,
            }),
    {
        match self.get(DataKey::Listing(listing_id)) {
            Some(Record::Listing(l)) => Some(l),
            _ => None,
        }
    }

    /// The swap offer stored under `swap_id`, if any.
    pub fn swap_offer(&self, swap_id: u64) -> (offer: Option<SwapOffer>)
        ensures
            offer == (match self@.get(DataKey::SwapOffer(swap_id)) {
                Some(Record::Swap(o)) => Some(o),
                _ => None,
            }),
    {
        match self.get(DataKey::SwapOffer(swap_id)) {
            Some(Record::Swap(o)) => Some(o),
            _ => None,
        }
    }

    /// Hands out the next identifier of `kind` and advances its counter by
    /// one. A missing counter counts as zero.
    pub fn next_id(&mut self, kind: IdKind) -> (r: Result<u64, MarketError>)
        ensures
            match allocation(Some(counter_at(old(self)@, kind.spec_key()))) {
                Ok((id, next)) => r == Ok::<u64, MarketError>(id) && final(self)@ == old(
                    self,
                )@.insert(kind.spec_key(), Record::Counter(next)),
                Err(e) => r == Err::<u64, MarketError>(e) && final(self)@ == old(self)@,
            },
    {
        let key = kind.key();
        match allocate(self.counter(key)) {
            Ok((id, next)) => {
                self.set(key, Record::Counter(next));
                Ok(id)
            },
            Err(e) => Err(e),
        }
    }
}

fn wrap_address(slot: Option<Address>) -> (record: Option<Record>)
    ensures
        record == address_record(slot),
{
    match slot {
        Some(a) => Some(Record::Address(a)),
        None => None,
    }
}

fn wrap_counter(slot: Option<u64>) -> (record: Option<Record>)
    ensures
        record == counter_record(slot),
{
    match slot {
        Some(n) => Some(Record::Counter(n)),
        None => None,
    }
}

} // verus!
