//! A marketplace registry for air-rights parcels: listings located by a
//! geographic grid cell, settled by sale or lease with a platform fee, and
//! cancelled or repriced by their owner.

pub mod clock;
pub mod create;
pub mod error;
pub mod fees;
pub mod geo;
pub mod identity;
pub mod laws;
pub mod lease;
pub mod manage;
pub mod purchase;
pub mod settlement;
pub mod state;

pub use create::create_listing;
pub use create::create_listing_at;
pub use create::initialize_registry;
pub use create::CreateListing;
pub use create::InitializeRegistry;
pub use error::ErrorCode;
pub use error::Failure;
pub use error::TransferError;
pub use fees::split_fee;
pub use fees::FeeSplit;
pub use geo::cell;
pub use identity::Identity;
pub use lease::lease_air_rights;
pub use lease::lease_air_rights_at;
pub use lease::LeaseAirRights;
pub use manage::cancel_listing;
pub use manage::update_price;
pub use manage::CancelListing;
pub use manage::UpdateListing;
pub use purchase::purchase_air_rights;
pub use purchase::PurchaseAirRights;
pub use settlement::Directive;
pub use settlement::LedgerEvent;
pub use settlement::Phase;
pub use settlement::Transfer;
pub use state::LeaseRecord;
pub use state::Listing;
pub use state::ListingStatus;
pub use state::ListingType;
pub use state::Location;
pub use state::LocationIndex;
pub use state::Registry;
