//! Opening the registry and putting a parcel on offer.

use crate::clock::unix_timestamp;
use crate::error::ErrorCode;
use crate::error::Failure;
use crate::geo::cell;
use crate::geo::grid_x_of;
use crate::geo::grid_y_of;
use crate::identity::Identity;
use crate::state::byte_len;
use crate::state::Listing;
use crate::state::ListingStatus;
use crate::state::ListingType;
use crate::state::Location;
use crate::state::LocationIndex;
use crate::state::Registry;
use crate::state::INITIAL_FEE_BPS;
use crate::state::MAX_CITY_LEN;
use crate::state::MAX_COUNTRY_LEN;
use crate::state::MAX_METADATA_URI_LEN;
use crate::state::MIN_COUNTRY_LEN;
use vstd::prelude::*;

verus! {

/// What opening the registry touches: the registry's record and the party
/// that becomes its authority.
#[derive(Clone, Copy, Debug, PartialEq, Eq)]
pub struct InitializeRegistry {
    pub registry: Registry,
    pub authority: Identity,
}

/// What creating a listing touches: the record that receives the listing, the
/// registry, the counter of the listing's locale, and the owner.
#[derive(Clone, Debug, PartialEq, Eq)]
pub struct CreateListing {
    pub listing: Listing,
    pub registry: Registry,
    pub location_index: LocationIndex,
    pub owner: Identity,
}

/// The registry as it is opened by `authority`.
pub open spec fn opened_registry(authority: Identity) -> Registry {
    Registry { authority, total_listings: 0, platform_fee_bps: 250 }
}

/// Opens the registry: no listing issued yet, a fee of 250 basis points, and
/// the caller as authority. It always succeeds; that a registry is opened
/// once only is for the store that keeps it to see to.
pub fn initialize_registry(ctx: &mut InitializeRegistry) -> (result: Result<(), Failure>)
    ensures
        result is Ok,
        final(ctx).registry == opened_registry(old(ctx).authority),
        final(ctx).authority == old(ctx).authority,
        final(ctx).registry.well_formed(),
{
    ctx.registry.authority = ctx.authority;
    ctx.registry.total_listings = 0;
    ctx.registry.platform_fee_bps = INITIAL_FEE_BPS;
    Ok(())
}

/// The first rule that the description of a parcel breaks, if it breaks one.
/// The rules are tried in this order: the length of the metadata URI, of the
/// city and of the country code, the height range, the price.
pub open spec fn creation_error(
    height_from: u16,
    height_to: u16,
    price: u64,
    city: Seq<char>,
    country: Seq<char>,
    metadata_uri: Seq<char>,
) -> Option<ErrorCode> {
    if byte_len(metadata_uri) > 200 {
        Some(ErrorCode::MetadataUriTooLong)
    } else if byte_len(city) == 0 || byte_len(city) > 50 {
        Some(ErrorCode::CityNameTooLong)
    } else if byte_len(country) < 2 || byte_len(country) > 3 {
        Some(ErrorCode::CountryCodeInvalid)
    } else if height_to <= height_from {
        Some(ErrorCode::InvalidHeightRange)
    } else if price == 0 {
        Some(ErrorCode::InvalidPrice)
    } else {
        None
    }
}

/// Why a listing cannot be created, if it cannot: a rule that the description
/// breaks, or else a counter that has no room for one more.
pub open spec fn creation_failure(
    ctx: CreateListing,
    height_from: u16,
    height_to: u16,
    price: u64,
    city: Seq<char>,
    country: Seq<char>,
    metadata_uri: Seq<char>,
) -> Option<Failure> {
    match creation_error(height_from, height_to, price, city, country, metadata_uri) {
        Some(code) => Some(Failure::Rejected(code)),
        None => if ctx.registry.total_listings == u64::MAX || ctx.location_index.listing_count
            == u32::MAX {
            Some(Failure::Arithmetic)
        } else {
            None
        },
    }
}

/// The listing that a description gives rise to: active, without a buyer, in
/// the grid cell of its coordinates.
pub open spec fn new_listing(
    owner: Identity,
    listing_id: u64,
    latitude: i32,
    longitude: i32,
    height_from: u16,
    height_to: u16,
    area_sqm: u32,
    price: u64,
    listing_type: ListingType,
    duration_days: u32,
    city: String,
    country: String,
    metadata_uri: String,
    created_at: i64,
) -> Listing {
    Listing {
        owner,
        listing_id,
        location: Location {
            latitude,
            longitude,
            grid_x: grid_x_of(longitude as int) as u32,
            grid_y: grid_y_of(latitude as int) as u32,
            city,
            country,
        },
        height_from,
        height_to,
        area_sqm,
        price,
        listing_type,
        status: ListingStatus::Active,
        duration_days,
        created_at,
        metadata_uri,
        buyer: None,
    }
}

/// A locale's counter after one more listing. A counter at zero takes the
/// names of the listing's locale; any other keeps the names it has.
pub open spec fn counted(index: LocationIndex, city: String, country: String) -> LocationIndex {
    if index.listing_count == 0 {
        LocationIndex { city, country, listing_count: 1 }
    } else {
        LocationIndex { listing_count: (index.listing_count + 1) as u32, ..index }
    }
}

/// The records after a listing was created at time `created_at`: the new
/// listing under the registry's next number, the registry one number on, and
/// the locale's counter one up.
pub open spec fn after_creation(
    ctx: CreateListing,
    latitude: i32,
    longitude: i32,
    height_from: u16,
    height_to: u16,
    area_sqm: u32,
    price: u64,
    listing_type: ListingType,
    duration_days: u32,
    city: String,
    country: String,
    metadata_uri: String,
    created_at: i64,
) -> CreateListing {
    CreateListing {
        listing: new_listing(
            ctx.owner,
            ctx.registry.total_listings,
            latitude,
            longitude,
            height_from,
            height_to,
            area_sqm,
            price,
            listing_type,
            duration_days,
            city,
            country,
            metadata_uri,
            created_at,
        ),
        registry: Registry {
            total_listings: (ctx.registry.total_listings + 1) as u64,
            ..ctx.registry
        },
        location_index: counted(ctx.location_index, city, country),
        owner: ctx.owner,
    }
}

fn byte_count(text: &String) -> (count: usize)
    ensures
        count == byte_len(text@),
{
    text.as_str().as_bytes().len()
}

fn check_creation(
    ctx: &CreateListing,
    height_from: u16,
    height_to: u16,
    price: u64,
    city: &String,
    country: &String,
    metadata_uri: &String,
) -> (failure: Option<Failure>)
    ensures
        failure == creation_failure(
            *ctx,
            height_from,
            height_to,
            price,
            city@,
            country@,
            metadata_uri@,
        ),
{
    let city_len: usize = byte_count(city);
    let country_len: usize = byte_count(country);
    if byte_count(metadata_uri) > MAX_METADATA_URI_LEN {
        Some(Failure::Rejected(ErrorCode::MetadataUriTooLong))
    } else if city_len == 0 || city_len > MAX_CITY_LEN {
        Some(Failure::Rejected(ErrorCode::CityNameTooLong))
    } else if country_len < MIN_COUNTRY_LEN || country_len > MAX_COUNTRY_LEN {
        Some(Failure::Rejected(ErrorCode::CountryCodeInvalid))
    } else if height_to <= height_from {
        Some(Failure::Rejected(ErrorCode::InvalidHeightRange))
    } else if price == 0 {
        Some(Failure::Rejected(ErrorCode::InvalidPrice))
    } else if ctx.registry.total_listings == u64::MAX || ctx.location_index.listing_count
        == u32::MAX {
        Some(Failure::Arithmetic)
    } else {
        None
    }
}

fn record_listing(
    ctx: &mut CreateListing,
    latitude: i32,
    longitude: i32,
    height_from: u16,
    height_to: u16,
    area_sqm: u32,
    price: u64,
    listing_type: ListingType,
    duration_days: u32,
    city: String,
    country: String,
    metadata_uri: String,
    now: i64,
)
    requires
        old(ctx).registry.total_listings < u64::MAX,
        old(ctx).location_index.listing_count < u32::MAX,
    ensures
        *final(ctx) == after_creation(
            *old(ctx),
            latitude,
            longitude,
            height_from,
            height_to,
            area_sqm,
            price,
            listing_type,
            duration_days,
            city,
            country,
            metadata_uri,
            now,
        ),
{
    let (grid_x, grid_y) = cell(latitude, longitude);
    if ctx.location_index.listing_count == 0 {
        ctx.location_index.city = city.clone();
        ctx.location_index.country = country.clone();
    }
    ctx.location_index.listing_count = ctx.location_index.listing_count + 1;
    ctx.listing = Listing {
        owner: ctx.owner,
        listing_id: ctx.registry.total_listings,
        location: Location { latitude, longitude, grid_x, grid_y, city, country },
        height_from,
        height_to,
        area_sqm,
        price,
        listing_type,
        status: ListingStatus::Active,
        duration_days,
        created_at: now,
        metadata_uri,
        buyer: None,
    };
    ctx.registry.total_listings = ctx.registry.total_listings + 1;
}

/// Creates a listing at the time `now`.
///
/// A description that breaks a rule is refused with the first rule broken,
/// and a full counter with `Failure::Arithmetic`; the records are then as
/// they were. Otherwise the listing is written under the registry's next
/// number, and the registry and the locale's counter each go up by one.
pub fn create_listing_at(
    ctx: &mut CreateListing,
    latitude: i32,
    longitude: i32,
    height_from: u16,
    height_to: u16,
    area_sqm: u32,
    price: u64,
    listing_type: ListingType,
    duration_days: u32,
    city: String,
    country: String,
    metadata_uri: String,
    now: i64,
) -> (result: Result<(), Failure>)
    ensures
        match creation_failure(
            *old(ctx),
            height_from,
            height_to,
            price,
            city@,
            country@,
            metadata_uri@,
        ) {
            Some(failure) => result == Err::<(), Failure>(failure) && *final(ctx) == *old(ctx),
            None => result is Ok && *final(ctx) == after_creation(
                *old(ctx),
                latitude,
                longitude,
                height_from,
                height_to,
                area_sqm,
                price,
                listing_type,
                duration_days,
                city,
                country,
                metadata_uri,
                now,
            ),
        },
        result is Ok ==> {
            &&& final(ctx).listing.listing_id == old(ctx).registry.total_listings
            &&& final(ctx).registry.total_listings == old(ctx).registry.total_listings + 1
            &&& final(ctx).listing.well_formed()
        },
{
    match check_creation(ctx, height_from, height_to, price, &city, &country, &metadata_uri) {
        Some(failure) => Err(failure),
        None => {
            record_listing(
                ctx,
                latitude,
                longitude,
                height_from,
                height_to,
                area_sqm,
                price,
                listing_type,
                duration_days,
                city,
                country,
                metadata_uri,
                now,
            );
            Ok(())
        },
    }
}

/// Creates a listing at the time that the runtime's clock shows.
///
/// The description and the counters are tried first, as `create_listing_at`
/// tries them. Then the clock is read. If the runtime refuses, its error comes
/// back in `Failure::Clock` and the records are as they were; otherwise the
/// listing is created as `create_listing_at` creates it, at the time read.
pub fn create_listing(
    ctx: &mut CreateListing,
    latitude: i32,
    longitude: i32,
    height_from: u16,
    height_to: u16,
    area_sqm: u32,
    price: u64,
    listing_type: ListingType,
    duration_days: u32,
    city: String,
    country: String,
    metadata_uri: String,
) -> (result: Result<(), Failure>)
    ensures
        match creation_failure(
            *old(ctx),
            height_from,
            height_to,
            price,
            city@,
            country@,
            metadata_uri@,
        ) {
            Some(failure) => result == Err::<(), Failure>(failure) && *final(ctx) == *old(ctx),
            None => match result {
                Ok(_) => *final(ctx) == after_creation(
                    *old(ctx),
                    latitude,
                    longitude,
                    height_from,
                    height_to,
                    area_sqm,
                    price,
                    listing_type,
                    duration_days,
                    city,
                    country,
                    metadata_uri,
                    final(ctx).listing.created_at,
                ),
                Err(failure) => failure is Clock && *final(ctx) == *old(ctx),
            },
        },
        result is Ok ==> {
            &&& final(ctx).listing.listing_id == old(ctx).registry.total_listings
            &&& final(ctx).registry.total_listings == old(ctx).registry.total_listings + 1
            &&& final(ctx).listing.well_formed()
        },
{
    match check_creation(ctx, height_from, height_to, price, &city, &country, &metadata_uri) {
        Some(failure) => Err(failure),
        None => match unix_timestamp() {
            Err(refusal) => Err(Failure::Clock(refusal)),
            Ok(now) => {
                record_listing(
                    ctx,
                    latitude,
                    longitude,
                    height_from,
                    height_to,
                    area_sqm,
                    price,
                    listing_type,
                    duration_days,
                    city,
                    country,
                    metadata_uri,
                    now,
                );
                Ok(())
            },
        },
    }
}

} // verus!
