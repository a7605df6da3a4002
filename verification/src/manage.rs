//! What the owner of a listing may do with it: withdraw it, or change its
//! price.

use crate::error::ErrorCode;
use crate::identity::Identity;
use crate::state::Listing;
use crate::state::ListingStatus;
use crate::state::LocationIndex;
use vstd::prelude::*;

verus! {

/// What a cancellation touches: the listing, the counter of its locale, and
/// the caller, who must be the owner.
#[derive(Clone, Debug, PartialEq, Eq)]
pub struct CancelListing {
    pub listing: Listing,
    pub location_index: LocationIndex,
    pub owner: Identity,
}

/// What a change of price touches: the listing, and the caller, who must be
/// the owner.
#[derive(Clone, Debug, PartialEq, Eq)]
pub struct UpdateListing {
    pub listing: Listing,
    pub owner: Identity,
}

/// The rule that keeps `caller` from managing `listing`, if one does: the
/// listing must be active, and the caller its owner.
pub open spec fn management_error(listing: Listing, caller: Identity) -> Option<ErrorCode> {
    if listing.status != ListingStatus::Active {
        Some(ErrorCode::ListingNotActive)
    } else if listing.owner != caller {
        Some(ErrorCode::Unauthorized)
    } else {
        None
    }
}

/// A count less one, but never less than zero.
pub open spec fn one_fewer(count: u32) -> u32 {
    if count == 0 {
        0
    } else {
        (count - 1) as u32
    }
}

/// The records after the listing was cancelled: the listing is marked so, and
/// its locale counts one listing fewer.
pub open spec fn after_cancellation(ctx: CancelListing) -> CancelListing {
    CancelListing {
        listing: Listing { status: ListingStatus::Cancelled, ..ctx.listing },
        location_index: LocationIndex {
            listing_count: one_fewer(ctx.location_index.listing_count),
            ..ctx.location_index
        },
        owner: ctx.owner,
    }
}

/// The rule that keeps `caller` from pricing `listing` at `new_price`, if one
/// does: those of `management_error`, and then that the price is not zero.
pub open spec fn repricing_error(listing: Listing, caller: Identity, new_price: u64) -> Option<
    ErrorCode,
> {
    match management_error(listing, caller) {
        Some(code) => Some(code),
        None => if new_price == 0 {
            Some(ErrorCode::InvalidPrice)
        } else {
            None
        },
    }
}

fn check_management(listing: &Listing, caller: &Identity) -> (error: Option<ErrorCode>)
    ensures
        error == management_error(*listing, *caller),
{
    if listing.status != ListingStatus::Active {
        Some(ErrorCode::ListingNotActive)
    } else if listing.owner != *caller {
        Some(ErrorCode::Unauthorized)
    } else {
        None
    }
}

/// Withdraws an active listing at its owner's request.
///
/// A listing that is not active is refused with `ListingNotActive`, and a
/// caller who is not the owner with `Unauthorized`; the records are then as
/// they were. Otherwise the listing becomes cancelled and the count of its
/// locale goes down by one, stopping at zero.
pub fn cancel_listing(ctx: &mut CancelListing) -> (result: Result<(), ErrorCode>)
    ensures
        match management_error(old(ctx).listing, old(ctx).owner) {
            Some(code) => result == Err::<(), ErrorCode>(code) && *final(ctx) == *old(ctx),
            None => result is Ok && *final(ctx) == after_cancellation(*old(ctx)),
        },
        result is Ok ==> {
            &&& final(ctx).listing.status == ListingStatus::Cancelled
            &&& final(ctx).location_index.listing_count == one_fewer(
                old(ctx).location_index.listing_count,
            )
        },
{
    match check_management(&ctx.listing, &ctx.owner) {
        Some(code) => Err(code),
        None => {
            ctx.listing.status = ListingStatus::Cancelled;
            ctx.location_index.listing_count = ctx.location_index.listing_count.saturating_sub(1);
            Ok(())
        },
    }
}

/// Sets the price of an active listing at its owner's request.
///
/// A listing that is not active is refused with `ListingNotActive`, a caller
/// who is not the owner with `Unauthorized`, and a price of zero with
/// `InvalidPrice`, in this order; the listing is then as it was. Otherwise
/// the price is replaced and nothing else.
pub fn update_price(ctx: &mut UpdateListing, new_price: u64) -> (result: Result<(), ErrorCode>)
    ensures
        match repricing_error(old(ctx).listing, old(ctx).owner, new_price) {
            Some(code) => result == Err::<(), ErrorCode>(code) && *final(ctx) == *old(ctx),
            None => result is Ok && *final(ctx) == (UpdateListing {
                listing: Listing { price: new_price, ..old(ctx).listing },
                owner: old(ctx).owner,
            }),
        },
        old(ctx).listing.owner != old(ctx).owner ==> {
            &&& result is Err
            &&& final(ctx).listing.price == old(ctx).listing.price
            &&& old(ctx).listing.status == ListingStatus::Active ==> result == Err::<(), ErrorCode>(
                ErrorCode::Unauthorized,
            )
        },
{
    match check_management(&ctx.listing, &ctx.owner) {
        Some(code) => Err(code),
        None => if new_price == 0 {
            Err(ErrorCode::InvalidPrice)
        } else {
            ctx.listing.price = new_price;
            Ok(())
        },
    }
}

} // verus!
