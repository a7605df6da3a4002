//! The records that the marketplace keeps, and what holds of each.

use crate::geo::grid_x_of;
use crate::geo::grid_y_of;
use crate::identity::Identity;
use vstd::prelude::*;
use vstd::utf8::encode_utf8;

verus! {

/// Most bytes that a metadata URI may have.
pub const MAX_METADATA_URI_LEN: usize = 200;

/// Most bytes that a city name may have.
pub const MAX_CITY_LEN: usize = 50;

/// Fewest bytes that a country code may have.
pub const MIN_COUNTRY_LEN: usize = 2;

/// Most bytes that a country code may have.
pub const MAX_COUNTRY_LEN: usize = 3;

/// The fee rate of a new registry, in basis points.
pub const INITIAL_FEE_BPS: u16 = 250;

/// The fee rate that takes the whole price, in basis points.
pub const FULL_RATE_BPS: u16 = 10_000;

/// The number of bytes that `text` takes in UTF-8.
pub open spec fn byte_len(text: Seq<char>) -> nat {
    encode_utf8(text).len()
}

/// What a listing offers.
#[derive(Clone, Copy, Debug, PartialEq, Eq, Hash, Structural)]
pub enum ListingType {
    Sale,
    Lease,
}

/// Where a listing stands in its life.
#[derive(Clone, Copy, Debug, PartialEq, Eq, Hash, Structural)]
pub enum ListingStatus {
    Active,
    Sold,
    Leased,
    Cancelled,
}

/// The one record that numbers the listings and holds the fee rate.
#[derive(Clone, Copy, Debug, PartialEq, Eq)]
pub struct Registry {
    pub authority: Identity,
    pub total_listings: u64,
    pub platform_fee_bps: u16,
}

impl Registry {
    /// The fee rate takes no more than the whole price.
    pub open spec fn well_formed(&self) -> bool {
        self.platform_fee_bps <= 10_000
    }

    /// Computes `well_formed`.
    pub fn is_well_formed(&self) -> (ok: bool)
        ensures
            ok == self.well_formed(),
    {
        self.platform_fee_bps <= FULL_RATE_BPS
    }
}

/// Where a parcel lies.
#[derive(Clone, Debug, PartialEq, Eq)]
pub struct Location {
    /// Degrees north, times a million.
    pub latitude: i32,
    /// Degrees east, times a million.
    pub longitude: i32,
    pub grid_x: u32,
    pub grid_y: u32,
    pub city: String,
    pub country: String,
}

impl Location {
    /// The grid cell is the one that the coordinates fall in, and the names of
    /// the locale have an accepted length.
    pub open spec fn well_formed(&self) -> bool {
        &&& self.grid_x == grid_x_of(self.longitude as int)
        &&& self.grid_y == grid_y_of(self.latitude as int)
        &&& 1 <= byte_len(self.city@) <= 50
        &&& 2 <= byte_len(self.country@) <= 3
    }
}

/// An offer to sell or lease a parcel of airspace.
#[derive(Clone, Debug, PartialEq, Eq)]
pub struct Listing {
    pub owner: Identity,
    pub listing_id: u64,
    pub location: Location,
    /// Lower bound of the parcel, in meters.
    pub height_from: u16,
    /// Upper bound of the parcel, in meters.
    pub height_to: u16,
    pub area_sqm: u32,
    pub price: u64,
    pub listing_type: ListingType,
    pub status: ListingStatus,
    /// Term of a lease; without meaning for a sale.
    pub duration_days: u32,
    pub created_at: i64,
    pub metadata_uri: String,
    /// Who bought or leased the parcel, once somebody has.
    pub buyer: Option<Identity>,
}

impl Listing {
    /// What every listing of the marketplace satisfies: a sound location, a
    /// height range that is not empty, a price, a short metadata URI, and a
    /// buyer exactly when the listing was settled in the way it was offered.
    pub open spec fn well_formed(&self) -> bool {
        &&& self.location.well_formed()
        &&& self.height_to > self.height_from
        &&& self.price > 0
        &&& byte_len(self.metadata_uri@) <= 200
        &&& self.buyer is Some <==> (self.status == ListingStatus::Sold || self.status
            == ListingStatus::Leased)
        &&& self.status == ListingStatus::Sold ==> self.listing_type == ListingType::Sale
        &&& self.status == ListingStatus::Leased ==> self.listing_type == ListingType::Lease
    }
}

/// How many listings a locale holds.
#[derive(Clone, Debug, PartialEq, Eq)]
pub struct LocationIndex {
    pub city: String,
    pub country: String,
    /// Listings created at the locale less those cancelled, never below zero.
    pub listing_count: u32,
}

/// The terms on which a lease was taken.
#[derive(Clone, Copy, Debug, PartialEq, Eq)]
pub struct LeaseRecord {
    pub listing_id: u64,
    pub lessor: Identity,
    pub lessee: Identity,
    pub start_date: i64,
    pub end_date: i64,
    pub amount_paid: u64,
    pub is_active: bool,
}

impl Default for Registry {
    /// A registry's record before the registry is opened.
    fn default() -> (registry: Registry)
        ensures
            registry.authority.is_zero(),
            registry.total_listings == 0,
            registry.platform_fee_bps == 0,
            registry.well_formed(),
    {
        Registry { authority: Identity::default(), total_listings: 0, platform_fee_bps: 0 }
    }
}

impl Default for LocationIndex {
    /// The counter of a locale that has had no listing yet.
    fn default() -> (index: LocationIndex)
        ensures
            index.listing_count == 0,
            index.city@ == Seq::<char>::empty(),
            index.country@ == Seq::<char>::empty(),
    {
        LocationIndex { city: String::new(), country: String::new(), listing_count: 0 }
    }
}

impl Default for Location {
    /// The location of a record that holds no listing yet.
    fn default() -> (location: Location)
        ensures
            location.latitude == 0,
            location.longitude == 0,
            location.grid_x == 0,
            location.grid_y == 0,
            location.city@ == Seq::<char>::empty(),
            location.country@ == Seq::<char>::empty(),
    {
        Location {
            latitude: 0,
            longitude: 0,
            grid_x: 0,
            grid_y: 0,
            city: String::new(),
            country: String::new(),
        }
    }
}

impl Default for Listing {
    /// A record that holds no listing yet, as `create_listing` finds it.
    fn default() -> (listing: Listing)
        ensures
            listing.owner.is_zero(),
            listing.listing_id == 0,
            listing.location.latitude == 0,
            listing.location.longitude == 0,
            listing.location.grid_x == 0,
            listing.location.grid_y == 0,
            listing.location.city@ == Seq::<char>::empty(),
            listing.location.country@ == Seq::<char>::empty(),
            listing.height_from == 0,
            listing.height_to == 0,
            listing.area_sqm == 0,
            listing.price == 0,
            listing.listing_type == ListingType::Sale,
            listing.status == ListingStatus::Active,
            listing.duration_days == 0,
            listing.created_at == 0,
            listing.metadata_uri@ == Seq::<char>::empty(),
            listing.buyer is None,
    {
        Listing {
            owner: Identity::default(),
            listing_id: 0,
            location: Location::default(),
            height_from: 0,
            height_to: 0,
            area_sqm: 0,
            price: 0,
            listing_type: ListingType::Sale,
            status: ListingStatus::Active,
            duration_days: 0,
            created_at: 0,
            metadata_uri: String::new(),
            buyer: None,
        }
    }
}

impl Default for LeaseRecord {
    /// A record that holds no lease yet, as `lease_air_rights` finds it.
    fn default() -> (record: LeaseRecord)
        ensures
            record.listing_id == 0,
            record.lessor.is_zero(),
            record.lessee.is_zero(),
            record.start_date == 0,
            record.end_date == 0,
            record.amount_paid == 0,
            !record.is_active,
    {
        LeaseRecord {
            listing_id: 0,
            lessor: Identity::default(),
            lessee: Identity::default(),
            start_date: 0,
            end_date: 0,
            amount_paid: 0,
            is_active: false,
        }
    }
}

} // verus!
