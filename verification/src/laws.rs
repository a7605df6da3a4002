//! What holds of the marketplace as a whole, proved from the descriptions of
//! its operations.

use crate::create::after_creation;
use crate::create::counted;
use crate::create::creation_failure;
use crate::create::CreateListing;
use crate::error::ErrorCode;
use crate::error::Failure;
use crate::fees::lemma_fee_within_price;
use crate::fees::platform_fee_of;
use crate::fees::seller_amount_of;
use crate::geo::grid_x_of;
use crate::geo::grid_y_of;
use crate::geo::latitude_in_range;
use crate::geo::longitude_in_range;
use crate::identity::Identity;
use crate::lease::lease_end;
use crate::lease::lease_step;
use crate::lease::LeaseAirRights;
use crate::manage::after_cancellation;
use crate::manage::management_error;
use crate::manage::one_fewer;
use crate::manage::repricing_error;
use crate::manage::CancelListing;
use crate::purchase::purchase_step;
use crate::purchase::PurchaseAirRights;
use crate::settlement::fee_payment_of;
use crate::settlement::in_turn;
use crate::settlement::offer_error;
use crate::settlement::payout_of;
use crate::settlement::settlement_failure;
use crate::settlement::Directive;
use crate::settlement::LedgerEvent;
use crate::settlement::Phase;
use crate::state::Listing;
use crate::state::ListingStatus;
use crate::state::ListingType;
use crate::state::LocationIndex;
use crate::state::Registry;
use vstd::prelude::*;

verus! {

/// A listing that is created gets the number that the registry showed before,
/// and the registry then shows the next one; the listing is well formed, and
/// the registry's fee rate and authority stay as they were.
pub proof fn lemma_creation_takes_next_number(
    ctx: CreateListing,
    latitude: i32,
    longitude: i32,
    height_from: u16,
    height_to: u16,
    area_sqm: u32,
    price: u64,
    listing_type: ListingType,
    duration_days: u32,
    city: String,
    country: String,
    metadata_uri: String,
    created_at: i64,
)
    requires
        creation_failure(ctx, height_from, height_to, price, city@, country@, metadata_uri@)
            is None,
    ensures
        ({
            let after = after_creation(
                ctx,
                latitude,
                longitude,
                height_from,
                height_to,
                area_sqm,
                price,
                listing_type,
                duration_days,
                city,
                country,
                metadata_uri,
                created_at,
            );
            &&& after.listing.listing_id == ctx.registry.total_listings
            &&& after.registry.total_listings == ctx.registry.total_listings + 1
            &&& after.registry.platform_fee_bps == ctx.registry.platform_fee_bps
            &&& after.registry.authority == ctx.registry.authority
            &&& after.location_index.listing_count == ctx.location_index.listing_count + 1
            &&& after.listing.status == ListingStatus::Active
            &&& after.listing.well_formed()
        }),
{
}

/// On the globe a grid cell is the shifted coordinate divided by the width of
/// a cell, and it lies within the 36000 columns and 18000 rows (and one more
/// of each for the far edge).
pub proof fn lemma_cell_on_the_globe(latitude: i32, longitude: i32)
    requires
        latitude_in_range(latitude as int),
        longitude_in_range(longitude as int),
    ensures
        grid_x_of(longitude as int) == (longitude + 180_000_000) / 10_000,
        grid_y_of(latitude as int) == (latitude + 90_000_000) / 10_000,
        0 <= grid_x_of(longitude as int) <= 36_000,
        0 <= grid_y_of(latitude as int) <= 18_000,
{
}

/// The split of a price creates and destroys nothing: whenever the fee does
/// not exceed the price, fee and seller's amount are amounts of 64 bits that
/// add up to the price.
pub proof fn lemma_split_conserves_price(price: u64, platform_fee_bps: u16)
    requires
        platform_fee_of(price as int, platform_fee_bps as int) <= price,
    ensures
        0 <= platform_fee_of(price as int, platform_fee_bps as int) <= u64::MAX,
        0 <= seller_amount_of(price as int, platform_fee_bps as int) <= u64::MAX,
        platform_fee_of(price as int, platform_fee_bps as int) + seller_amount_of(
            price as int,
            platform_fee_bps as int,
        ) == price,
{
    assert(0 <= price * platform_fee_bps) by (nonlinear_arith)
        requires
            0 <= price,
            0 <= platform_fee_bps,
    ;
}

/// At a fee rate of at most 10000 basis points the fee never exceeds the
/// price, so every price can be split.
pub proof fn lemma_split_exists_within_full_rate(price: u64, platform_fee_bps: u16)
    requires
        platform_fee_bps <= 10_000,
    ensures
        platform_fee_of(price as int, platform_fee_bps as int) <= price,
{
    lemma_fee_within_price(price as int, platform_fee_bps as int);
}

/// A purchase changes a listing in one way only: its last step, on an active
/// listing for sale, marks it sold to the buyer. Every other step leaves all
/// records as they were.
pub proof fn lemma_purchase_sells_or_leaves(
    ctx: PurchaseAirRights,
    phase: Phase,
    event: LedgerEvent,
)
    ensures
        ({
            let (after, next, directive) = purchase_step(ctx, phase, event);
            if directive is Done {
                &&& phase == Phase::AwaitingFee
                &&& event == LedgerEvent::Confirmed
                &&& ctx.listing.status == ListingStatus::Active
                &&& ctx.listing.listing_type == ListingType::Sale
                &&& after.listing.status == ListingStatus::Sold
                &&& after.listing.buyer == Some(ctx.buyer)
                &&& after.listing.price == ctx.listing.price
                &&& after.listing.owner == ctx.listing.owner
                &&& after.registry == ctx.registry
                &&& next == Phase::Idle
            } else {
                after == ctx
            }
        }),
{
}

/// A purchase of a listing that is not active is turned away with
/// `ListingNotActive`, and one of an active listing that is for lease with
/// `NotForSale`; the records stay as they were.
pub proof fn lemma_purchase_refusals(ctx: PurchaseAirRights, phase: Phase, event: LedgerEvent)
    requires
        in_turn(phase, event),
        !(event is Refused),
    ensures
        ctx.listing.status != ListingStatus::Active ==> purchase_step(ctx, phase, event) == (
            ctx,
            Phase::Idle,
            Directive::Abort(Failure::Rejected(ErrorCode::ListingNotActive)),
        ),
        ctx.listing.status == ListingStatus::Active && ctx.listing.listing_type
            == ListingType::Lease ==> purchase_step(ctx, phase, event) == (
            ctx,
            Phase::Idle,
            Directive::Abort(Failure::Rejected(ErrorCode::NotForSale)),
        ),
{
}

/// A lease changes a listing in one way only: its last step, on an active
/// listing for lease, marks it leased to the lessee and writes the lease.
/// Every other step leaves all records as they were. No step of a lease
/// makes a listing sold.
pub proof fn lemma_lease_leases_or_leaves(
    ctx: LeaseAirRights,
    phase: Phase,
    event: LedgerEvent,
    now: i64,
)
    ensures
        ({
            let (after, next, directive) = lease_step(ctx, phase, event, now);
            if directive is Done {
                &&& phase == Phase::AwaitingFee
                &&& event == LedgerEvent::Confirmed
                &&& ctx.listing.status == ListingStatus::Active
                &&& ctx.listing.listing_type == ListingType::Lease
                &&& after.listing.status == ListingStatus::Leased
                &&& after.listing.buyer == Some(ctx.lessee)
                &&& after.lease_record.listing_id == ctx.listing.listing_id
                &&& after.lease_record.lessor == ctx.listing.owner
                &&& after.lease_record.lessee == ctx.lessee
                &&& after.lease_record.start_date == now
                &&& after.lease_record.end_date == lease_end(
                    now as int,
                    ctx.listing.duration_days as int,
                )
                &&& after.lease_record.amount_paid == ctx.listing.price
                &&& after.lease_record.is_active
                &&& after.listing.price == ctx.listing.price
                &&& after.listing.owner == ctx.listing.owner
                &&& after.registry == ctx.registry
                &&& next == Phase::Idle
            } else {
                after == ctx
            }
        }),
{
}

/// Cancelling an active listing as its owner marks it cancelled and takes one
/// off the count of its locale, which stays at zero if it was there.
pub proof fn lemma_cancellation_counts_down(ctx: CancelListing)
    requires
        management_error(ctx.listing, ctx.owner) is None,
    ensures
        after_cancellation(ctx).listing.status == ListingStatus::Cancelled,
        after_cancellation(ctx).location_index.listing_count == one_fewer(
            ctx.location_index.listing_count,
        ),
        ctx.location_index.listing_count > 0 ==> after_cancellation(
            ctx,
        ).location_index.listing_count == ctx.location_index.listing_count - 1,
        ctx.location_index.listing_count == 0 ==> after_cancellation(
            ctx,
        ).location_index.listing_count == 0,
{
}

/// A listing that is created and then cancelled leaves the count of its
/// locale where it was.
pub proof fn lemma_cancellation_undoes_the_count(
    index: LocationIndex,
    city: String,
    country: String,
)
    requires
        index.listing_count < u32::MAX,
    ensures
        one_fewer(counted(index, city, country).listing_count) == index.listing_count,
{
}

/// While the registry's fee rate is at most the whole price, no settlement
/// fails for arithmetic: a step stops only for an event out of turn, a
/// transfer declined, or a listing that cannot be settled as wanted.
pub proof fn lemma_well_formed_registry_always_splits(
    listing: Listing,
    registry: Registry,
    wanted: ListingType,
    phase: Phase,
    event: LedgerEvent,
)
    requires
        registry.well_formed(),
    ensures
        settlement_failure(listing, registry, wanted, phase, event) != Some(Failure::Arithmetic),
        in_turn(phase, event) && !(event is Refused) && offer_error(listing, wanted) is None
            ==> settlement_failure(listing, registry, wanted, phase, event) is None,
{
    lemma_fee_within_price(listing.price as int, registry.platform_fee_bps as int);
}

/// The two payments of a settlement add up to the listing's price, whoever
/// pays and whoever is paid.
pub proof fn lemma_payments_add_up_to_the_price(
    listing: Listing,
    registry: Registry,
    payer: Identity,
    payee: Identity,
    treasury: Identity,
)
    requires
        platform_fee_of(listing.price as int, registry.platform_fee_bps as int) <= listing.price,
    ensures
        payout_of(listing, registry, payer, payee).amount + fee_payment_of(
            listing,
            registry,
            payer,
            treasury,
        ).amount == listing.price,
        fee_payment_of(listing, registry, payer, treasury).amount == platform_fee_of(
            listing.price as int,
            registry.platform_fee_bps as int,
        ),
{
    lemma_split_conserves_price(listing.price, registry.platform_fee_bps);
}

/// Nobody but the owner gets to manage an active listing: any other caller is
/// refused as unauthorised, whatever price is proposed.
pub proof fn lemma_strangers_are_unauthorized(listing: Listing, caller: Identity, new_price: u64)
    requires
        listing.status == ListingStatus::Active,
        listing.owner != caller,
    ensures
        management_error(listing, caller) == Some(ErrorCode::Unauthorized),
        repricing_error(listing, caller, new_price) == Some(ErrorCode::Unauthorized),
{
}

/// Of two purchases of one listing only the first goes through: once a
/// purchase is done, whoever comes next, at whatever step, finds the listing
/// no longer active, and the records stay with the first buyer.
pub proof fn lemma_second_purchase_is_refused(
    first: PurchaseAirRights,
    second: PurchaseAirRights,
    phase: Phase,
    event: LedgerEvent,
)
    requires
        purchase_step(first, Phase::AwaitingFee, LedgerEvent::Confirmed).2 is Done,
        second.listing == purchase_step(
            first,
            Phase::AwaitingFee,
            LedgerEvent::Confirmed,
        ).0.listing,
        in_turn(phase, event),
        !(event is Refused),
    ensures
        purchase_step(second, phase, event) == (
            second,
            Phase::Idle,
            Directive::Abort(Failure::Rejected(ErrorCode::ListingNotActive)),
        ),
        second.listing.buyer == Some(first.buyer),
{
}

/// A well-formed listing stays well formed through every step of a purchase
/// and of a lease, through cancellation, and through a change of price that
/// is accepted.
pub proof fn lemma_operations_keep_listings_well_formed(
    listing: Listing,
    purchase: PurchaseAirRights,
    lease: LeaseAirRights,
    cancel: CancelListing,
    phase: Phase,
    event: LedgerEvent,
    now: i64,
    new_price: u64,
)
    requires
        listing.well_formed(),
        purchase.listing == listing,
        lease.listing == listing,
        cancel.listing == listing,
        new_price > 0,
    ensures
        purchase_step(purchase, phase, event).0.listing.well_formed(),
        lease_step(lease, phase, event, now).0.listing.well_formed(),
        management_error(cancel.listing, cancel.owner) is None ==> after_cancellation(
            cancel,
        ).listing.well_formed(),
        listing.status == ListingStatus::Active ==> (Listing {
            price: new_price,
            ..listing
        }).well_formed(),
{
}

} // verus!
