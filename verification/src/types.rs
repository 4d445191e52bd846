//! Plain data of the marketplace: addresses, records, storage keys and errors.
use vstd::prelude::*;

verus! {

/// An account or contract on the ledger, identified by its 32-byte key.
///
/// The key is held as two 128-bit halves so that equality is structural;
/// [`crate::wire`] fixes how they relate to the bytes.
#[derive(Clone, Copy, Debug, PartialEq, Eq, Structural)]
pub struct Address {
    /// `true` for a contract, `false` for an account.
    pub contract: bool,
    /// The first sixteen bytes of the key, read as a little-endian number.
    pub hi: u128,
    /// The last sixteen bytes of the key, read as a little-endian number.
    pub lo: u128,
}

/// The settlement asset in which a price is denominated.
#[derive(Clone, Copy, Debug, PartialEq, Eq, Structural)]
pub enum Currency {
    Xlm,
    Usdc,
}

/// A fixed-price sale offer for one token held in escrow.
#[derive(Clone, Copy, Debug, PartialEq, Eq, Structural)]
pub struct ListingInfo {
    pub seller: Address,
    pub token_id: u64,
    pub price_xlm: i128,
    pub price_usdc: i128,
    pub xlm_usdc_rate: i128,
    pub active: bool,
}

/// A proposal to trade one escrowed token for another specific token.
#[derive(Clone, Copy, Debug, PartialEq, Eq, Structural)]
pub struct SwapOffer {
    pub offerer: Address,
    pub offered_token_id: u64,
    pub desired_token_id: u64,
    pub active: bool,
}

/// The keys under which the marketplace persists its state.
#[derive(Clone, Copy, Debug, PartialEq, Eq, Structural)]
pub enum DataKey {
    Admin,
    NftContract,
    UsdcToken,
    XlmToken,
    NextListingId,
    NextSwapId,
    Listing(u64),
    SwapOffer(u64),
}

/// A value held under a [`DataKey`].
#[derive(Clone, Copy, Debug, PartialEq, Eq, Structural)]
pub enum Record {
    Address(Address),
    Counter(u64),
    Listing(ListingInfo),
    Swap(SwapOffer),
}

/// Why an operation was refused. A refused operation changes nothing.
#[derive(Clone, Copy, Debug, PartialEq, Eq, Structural)]
pub enum MarketError {
    /// The configuration is already present.
    AlreadyInitialized,
    /// The configuration is absent.
    NotInitialized,
    /// The price in the named currency is not positive.
    InvalidPrice(Currency),
    /// The offered and the desired token are the same.
    InvalidSwap,
    /// No record is stored under the given id.
    NotFound,
    /// The listing has already been sold or cancelled.
    ListingInactive,
    /// The swap offer has already been accepted or cancelled.
    SwapInactive,
    /// The acting address did not authorize the call, or does not control the record.
    Unauthorized,
    /// The token registry refused a transfer: the sender does not own the token.
    NotOwner,
    /// The token ledger refused a payment: the amount is negative or exceeds the balance.
    InsufficientBalance,
    /// The token ledger refused a payment: the receiver's balance would overflow.
    BalanceOverflow,
    /// The identifier sequence is exhausted.
    IdOverflow,
}

/// A movement of one token between two owners in the token registry.
#[derive(Clone, Copy, Debug, PartialEq, Eq, Structural)]
pub struct Transfer {
    pub from: Address,
    pub to: Address,
    pub token_id: u64,
}

/// A movement of funds between two accounts on one of the token ledgers.
#[derive(Clone, Copy, Debug, PartialEq, Eq, Structural)]
pub struct Payment {
    pub currency: Currency,
    pub from: Address,
    pub to: Address,
    pub amount: i128,
}

impl Currency {
    /// The key under which the address of this currency's ledger is kept.
    pub open spec fn spec_ledger_key(&self) -> DataKey {
        match self {
            Currency::Xlm => DataKey::XlmToken,
            Currency::Usdc => DataKey::UsdcToken,
        }
    }

    #[verifier::when_used_as_spec(spec_ledger_key)]
    pub fn ledger_key(&self) -> (key: DataKey)
        ensures
            key == self.spec_ledger_key(),
    {
        match self {
            Currency::Xlm => DataKey::XlmToken,
            Currency::Usdc => DataKey::UsdcToken,
        }
    }
}

impl DataKey {
    /// Whether a record of this shape may be stored under the key.
    pub open spec fn accepts(self, record: Record) -> bool {
        match self {
            DataKey::Admin | DataKey::NftContract | DataKey::UsdcToken | DataKey::XlmToken => record is Address,
            DataKey::NextListingId | DataKey::NextSwapId => record is Counter,
            DataKey::Listing(_) => record is Listing,
            DataKey::SwapOffer(_) => record is Swap,
        }
    }
}

impl ListingInfo {
    /// The price of the listing in the given currency.
    pub open spec fn spec_price(&self, currency: Currency) -> i128 {
        match currency {
            Currency::Xlm => self.price_xlm,
            Currency::Usdc => self.price_usdc,
        }
    }

    /// The same listing after its one terminal event.
    pub open spec fn spec_closed(&self) -> ListingInfo {
        ListingInfo { active: false, ..*self }
    }

    #[verifier::when_used_as_spec(spec_price)]
    pub fn price(&self, currency: Currency) -> (amount: i128)
        ensures
            amount == self.spec_price(currency),
    {
        match currency {
            Currency::Xlm => self.price_xlm,
            Currency::Usdc => self.price_usdc,
        }
    }

    #[verifier::when_used_as_spec(spec_closed)]
    pub fn closed(&self) -> (after: ListingInfo)
        ensures
            after == self.spec_closed(),
    {
        ListingInfo {
            seller: self.seller,
            token_id: self.token_id,
            price_xlm: self.price_xlm,
            price_usdc: self.price_usdc,
            xlm_usdc_rate: self.xlm_usdc_rate,
            active: false,
        }
    }
}

impl SwapOffer {
    /// The same offer after its one terminal event.
    pub open spec fn spec_closed(&self) -> SwapOffer {
        SwapOffer { active: false, ..*self }
    }

    #[verifier::when_used_as_spec(spec_closed)]
    pub fn closed(&self) -> (after: SwapOffer)
        ensures
            after == self.spec_closed(),
    {
        SwapOffer {
            offerer: self.offerer,
            offered_token_id: self.offered_token_id,
            desired_token_id: self.desired_token_id,
            active: false,
        }
    }
}

} // verus!
