//! An escrow marketplace for non-fungible tokens: fixed-price sales in two
//! settlement currencies and direct token-for-token swaps.
pub mod auth;
pub mod history;
pub mod host;
pub mod laws;
pub mod marketplace;
pub mod plan;
pub mod registry;
pub mod store;
pub mod token;
pub mod types;
pub mod wire;

pub use auth::Authorization;
pub use host::{Host, World};
pub use marketplace::ShimejiMarketplace;
pub use registry::NftRegistry;
pub use store::{IdKind, RecordStore};
pub use token::TokenLedger;
pub use types::{Address, Currency, DataKey, ListingInfo, MarketError, Payment, Record, SwapOffer, Transfer};
