use air::create_listing;
use air::create_listing_at;
use air::initialize_registry;
use air::CreateListing;
use air::ErrorCode;
use air::Failure;
use air::Identity;
use air::InitializeRegistry;
use air::Listing;
use air::ListingStatus;
use air::ListingType;
use air::LocationIndex;
use air::Registry;
use anchor_lang::prelude::ProgramError;

fn party(tag: u8) -> Identity {
    Identity::new([tag; 32])
}

fn opened_registry() -> Registry {
    let mut ctx = InitializeRegistry { registry: Registry::default(), authority: party(1) };
    initialize_registry(&mut ctx).unwrap();
    ctx.registry
}

fn fresh_creation() -> CreateListing {
    CreateListing {
        listing: Listing::default(),
        registry: opened_registry(),
        location_index: LocationIndex::default(),
        owner: party(2),
    }
}

fn create_with(
    ctx: &mut CreateListing,
    height_from: u16,
    height_to: u16,
    price: u64,
    city: &str,
    country: &str,
    metadata_uri: &str,
) -> Result<(), Failure> {
    create_listing_at(
        ctx,
        40_000_000,
        -74_000_000,
        height_from,
        height_to,
        120,
        price,
        ListingType::Sale,
        0,
        String::from(city),
        String::from(country),
        String::from(metadata_uri),
        1_700_000_000,
    )
}

#[test]
fn registry_opens_empty_at_250_basis_points() {
    let mut ctx = InitializeRegistry {
        registry: Registry { authority: party(9), total_listings: 77, platform_fee_bps: 9 },
        authority: party(1),
    };
    assert_eq!(initialize_registry(&mut ctx), Ok(()));
    assert_eq!(
        ctx.registry,
        Registry { authority: party(1), total_listings: 0, platform_fee_bps: 250 }
    );
    assert_eq!(ctx.authority, party(1));
    assert!(ctx.registry.is_well_formed());
}

#[test]
fn created_listing_holds_what_was_described() {
    let mut ctx: CreateListing = fresh_creation();
    let result = create_listing_at(
        &mut ctx,
        40_000_000,
        -74_000_000,
        10,
        50,
        120,
        1_000_000,
        ListingType::Lease,
        30,
        String::from("New York"),
        String::from("US"),
        String::from("ipfs://parcel"),
        1_700_000_000,
    );
    assert_eq!(result, Ok(()));
    let listing: &Listing = &ctx.listing;
    assert_eq!(listing.owner, party(2));
    assert_eq!(listing.listing_id, 0);
    assert_eq!(listing.location.latitude, 40_000_000);
    assert_eq!(listing.location.longitude, -74_000_000);
    assert_eq!(listing.location.grid_x, 10_600);
    assert_eq!(listing.location.grid_y, 13_000);
    assert_eq!(listing.location.city, "New York");
    assert_eq!(listing.location.country, "US");
    assert_eq!(listing.height_from, 10);
    assert_eq!(listing.height_to, 50);
    assert_eq!(listing.area_sqm, 120);
    assert_eq!(listing.price, 1_000_000);
    assert_eq!(listing.listing_type, ListingType::Lease);
    assert_eq!(listing.status, ListingStatus::Active);
    assert_eq!(listing.duration_days, 30);
    assert_eq!(listing.created_at, 1_700_000_000);
    assert_eq!(listing.metadata_uri, "ipfs://parcel");
    assert_eq!(listing.buyer, None);
    assert_eq!(ctx.owner, party(2));
}

#[test]
fn listing_takes_the_registry_number_and_moves_it_on() {
    let mut ctx: CreateListing = fresh_creation();
    ctx.registry.total_listings = 41;
    assert_eq!(create_with(&mut ctx, 10, 50, 5, "Pune", "IN", ""), Ok(()));
    assert_eq!(ctx.listing.listing_id, 41);
    assert_eq!(ctx.registry.total_listings, 42);
    assert_eq!(create_with(&mut ctx, 10, 50, 5, "Pune", "IN", ""), Ok(()));
    assert_eq!(ctx.listing.listing_id, 42);
    assert_eq!(ctx.registry.total_listings, 43);
    assert_eq!(ctx.registry.platform_fee_bps, 250);
    assert_eq!(ctx.registry.authority, party(1));
}

#[test]
fn first_listing_names_the_locale() {
    let mut ctx: CreateListing = fresh_creation();
    assert_eq!(create_with(&mut ctx, 10, 50, 5, "Tokyo", "JP", ""), Ok(()));
    assert_eq!(
        ctx.location_index,
        LocationIndex {
            city: String::from("Tokyo"),
            country: String::from("JP"),
            listing_count: 1,
        }
    );
}

#[test]
fn later_listings_count_up_and_keep_the_names() {
    let mut ctx: CreateListing = fresh_creation();
    ctx.location_index =
        LocationIndex {
            city: String::from("Tokyo"),
            country: String::from("JP"),
            listing_count: 4,
        };
    assert_eq!(create_with(&mut ctx, 10, 50, 5, "Kyoto", "JPN", ""), Ok(()));
    assert_eq!(
        ctx.location_index,
        LocationIndex { city: String::from("Tokyo"), country: String::from("JP"), listing_count: 5 }
    );
    assert_eq!(ctx.listing.location.city, "Kyoto");
    assert_eq!(ctx.listing.location.country, "JPN");
}

#[test]
fn emptied_locale_is_named_anew() {
    let mut ctx: CreateListing = fresh_creation();
    ctx.location_index =
        LocationIndex { city: String::from("Tokyo"), country: String::from("JP"), listing_count: 0 };
    assert_eq!(create_with(&mut ctx, 10, 50, 5, "Osaka", "JP", ""), Ok(()));
    assert_eq!(
        ctx.location_index,
        LocationIndex { city: String::from("Osaka"), country: String::from("JP"), listing_count: 1 }
    );
}

#[test]
fn metadata_uri_of_200_bytes_passes_and_201_fail() {
    let mut ctx: CreateListing = fresh_creation();
    let longest: String = "u".repeat(200);
    assert_eq!(create_with(&mut ctx, 10, 50, 5, "Tokyo", "JP", &longest), Ok(()));
    let before: CreateListing = ctx.clone();
    let too_long: String = "u".repeat(201);
    assert_eq!(
        create_with(&mut ctx, 10, 50, 5, "Tokyo", "JP", &too_long),
        Err(Failure::Rejected(ErrorCode::MetadataUriTooLong))
    );
    assert_eq!(ctx, before);
}

#[test]
fn city_must_have_1_to_50_bytes() {
    let mut ctx: CreateListing = fresh_creation();
    let before: CreateListing = ctx.clone();
    assert_eq!(
        create_with(&mut ctx, 10, 50, 5, "", "JP", ""),
        Err(Failure::Rejected(ErrorCode::CityNameTooLong))
    );
    let too_long: String = "c".repeat(51);
    assert_eq!(
        create_with(&mut ctx, 10, 50, 5, &too_long, "JP", ""),
        Err(Failure::Rejected(ErrorCode::CityNameTooLong))
    );
    assert_eq!(ctx, before);
    let longest: String = "c".repeat(50);
    assert_eq!(create_with(&mut ctx, 10, 50, 5, &longest, "JP", ""), Ok(()));
    assert_eq!(create_with(&mut ctx, 10, 50, 5, "c", "JP", ""), Ok(()));
}

#[test]
fn lengths_are_counted_in_bytes() {
    let mut ctx: CreateListing = fresh_creation();
    let before: CreateListing = ctx.clone();
    let twenty_six_letters: String = "é".repeat(26);
    assert_eq!(twenty_six_letters.chars().count(), 26);
    assert_eq!(
        create_with(&mut ctx, 10, 50, 5, &twenty_six_letters, "FR", ""),
        Err(Failure::Rejected(ErrorCode::CityNameTooLong))
    );
    assert_eq!(
        create_with(&mut ctx, 10, 50, 5, "Paris", "日本", ""),
        Err(Failure::Rejected(ErrorCode::CountryCodeInvalid))
    );
    assert_eq!(ctx, before);
    let twenty_five_letters: String = "é".repeat(25);
    assert_eq!(create_with(&mut ctx, 10, 50, 5, &twenty_five_letters, "日", ""), Ok(()));
    assert_eq!(ctx.listing.location.country, "日");
}

#[test]
fn country_must_have_2_or_3_bytes() {
    let mut ctx: CreateListing = fresh_creation();
    let before: CreateListing = ctx.clone();
    for country in ["", "U", "USAA"] {
        assert_eq!(
            create_with(&mut ctx, 10, 50, 5, "Tokyo", country, ""),
            Err(Failure::Rejected(ErrorCode::CountryCodeInvalid))
        );
    }
    assert_eq!(ctx, before);
    assert_eq!(create_with(&mut ctx, 10, 50, 5, "Tokyo", "US", ""), Ok(()));
    assert_eq!(create_with(&mut ctx, 10, 50, 5, "Tokyo", "USA", ""), Ok(()));
}

#[test]
fn upper_height_must_exceed_lower() {
    let mut ctx: CreateListing = fresh_creation();
    let before: CreateListing = ctx.clone();
    assert_eq!(
        create_with(&mut ctx, 50, 50, 5, "Tokyo", "JP", ""),
        Err(Failure::Rejected(ErrorCode::InvalidHeightRange))
    );
    assert_eq!(
        create_with(&mut ctx, 51, 50, 5, "Tokyo", "JP", ""),
        Err(Failure::Rejected(ErrorCode::InvalidHeightRange))
    );
    assert_eq!(ctx, before);
    assert_eq!(create_with(&mut ctx, 0, 1, 5, "Tokyo", "JP", ""), Ok(()));
    assert_eq!(create_with(&mut ctx, 0, u16::MAX, 5, "Tokyo", "JP", ""), Ok(()));
}

#[test]
fn price_must_not_be_zero() {
    let mut ctx: CreateListing = fresh_creation();
    let before: CreateListing = ctx.clone();
    assert_eq!(
        create_with(&mut ctx, 10, 50, 0, "Tokyo", "JP", ""),
        Err(Failure::Rejected(ErrorCode::InvalidPrice))
    );
    assert_eq!(ctx, before);
    assert_eq!(create_with(&mut ctx, 10, 50, 1, "Tokyo", "JP", ""), Ok(()));
    assert_eq!(create_with(&mut ctx, 10, 50, u64::MAX, "Tokyo", "JP", ""), Ok(()));
}

#[test]
fn first_broken_rule_is_reported() {
    let mut ctx: CreateListing = fresh_creation();
    let too_long: String = "u".repeat(201);
    assert_eq!(
        create_with(&mut ctx, 50, 10, 0, "", "J", &too_long),
        Err(Failure::Rejected(ErrorCode::MetadataUriTooLong))
    );
    assert_eq!(
        create_with(&mut ctx, 50, 10, 0, "", "J", ""),
        Err(Failure::Rejected(ErrorCode::CityNameTooLong))
    );
    assert_eq!(
        create_with(&mut ctx, 50, 10, 0, "Tokyo", "J", ""),
        Err(Failure::Rejected(ErrorCode::CountryCodeInvalid))
    );
    assert_eq!(
        create_with(&mut ctx, 50, 10, 0, "Tokyo", "JP", ""),
        Err(Failure::Rejected(ErrorCode::InvalidHeightRange))
    );
    assert_eq!(
        create_with(&mut ctx, 10, 50, 0, "Tokyo", "JP", ""),
        Err(Failure::Rejected(ErrorCode::InvalidPrice))
    );
}

#[test]
fn full_counters_stop_creation() {
    let mut ctx: CreateListing = fresh_creation();
    ctx.registry.total_listings = u64::MAX;
    let before: CreateListing = ctx.clone();
    assert_eq!(create_with(&mut ctx, 10, 50, 5, "Tokyo", "JP", ""), Err(Failure::Arithmetic));
    assert_eq!(ctx, before);

    let mut ctx: CreateListing = fresh_creation();
    ctx.location_index.listing_count = u32::MAX;
    let before: CreateListing = ctx.clone();
    assert_eq!(create_with(&mut ctx, 10, 50, 5, "Tokyo", "JP", ""), Err(Failure::Arithmetic));
    assert_eq!(ctx, before);
    assert_eq!(
        create_with(&mut ctx, 10, 50, 0, "Tokyo", "JP", ""),
        Err(Failure::Rejected(ErrorCode::InvalidPrice))
    );

    let mut ctx: CreateListing = fresh_creation();
    ctx.registry.total_listings = u64::MAX - 1;
    ctx.location_index.listing_count = u32::MAX - 1;
    assert_eq!(create_with(&mut ctx, 10, 50, 5, "Tokyo", "JP", ""), Ok(()));
    assert_eq!(ctx.registry.total_listings, u64::MAX);
    assert_eq!(ctx.location_index.listing_count, u32::MAX);
}

#[test]
fn creation_overwrites_whatever_the_record_held() {
    let mut ctx: CreateListing = fresh_creation();
    ctx.listing.status = ListingStatus::Sold;
    ctx.listing.buyer = Some(party(5));
    ctx.listing.created_at = 3;
    assert_eq!(create_with(&mut ctx, 10, 50, 5, "Tokyo", "JP", ""), Ok(()));
    assert_eq!(ctx.listing.status, ListingStatus::Active);
    assert_eq!(ctx.listing.buyer, None);
    assert_eq!(ctx.listing.created_at, 1_700_000_000);
}

#[test]
fn creation_without_a_runtime_reports_the_refused_clock() {
    let mut ctx: CreateListing = fresh_creation();
    let before: CreateListing = ctx.clone();
    let result = create_listing(
        &mut ctx,
        40_000_000,
        -74_000_000,
        10,
        50,
        120,
        1_000_000,
        ListingType::Sale,
        0,
        String::from("New York"),
        String::from("US"),
        String::from(""),
    );
    assert_eq!(result, Err(Failure::Clock(ProgramError::UnsupportedSysvar)));
    assert_eq!(ctx, before);
}

#[test]
fn creation_tries_the_description_before_the_clock() {
    let mut ctx: CreateListing = fresh_creation();
    let before: CreateListing = ctx.clone();
    let result = create_listing(
        &mut ctx,
        40_000_000,
        -74_000_000,
        10,
        50,
        120,
        0,
        ListingType::Sale,
        0,
        String::from("New York"),
        String::from("US"),
        String::from(""),
    );
    assert_eq!(result, Err(Failure::Rejected(ErrorCode::InvalidPrice)));
    ctx.registry.total_listings = u64::MAX;
    let result = create_listing(
        &mut ctx,
        40_000_000,
        -74_000_000,
        10,
        50,
        120,
        1,
        ListingType::Sale,
        0,
        String::from("New York"),
        String::from("US"),
        String::from(""),
    );
    assert_eq!(result, Err(Failure::Arithmetic));
    ctx.registry.total_listings = 0;
    assert_eq!(ctx, before);
}

#[test]
fn blank_records_are_empty() {
    let listing: Listing = Listing::default();
    assert_eq!(listing.owner, Identity::new([0; 32]));
    assert_eq!(listing.listing_id, 0);
    assert_eq!(listing.price, 0);
    assert_eq!(listing.listing_type, ListingType::Sale);
    assert_eq!(listing.status, ListingStatus::Active);
    assert_eq!(listing.metadata_uri, "");
    assert_eq!(listing.location.city, "");
    assert_eq!(listing.location.country, "");
    assert_eq!(listing.location.grid_x, 0);
    assert_eq!(listing.buyer, None);
    let index: LocationIndex = LocationIndex::default();
    assert_eq!(index.listing_count, 0);
    assert_eq!(index.city, "");
    assert_eq!(index.country, "");
}
