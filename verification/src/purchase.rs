//! Buying a parcel that is offered for sale.

use crate::error::Failure;
use crate::identity::Identity;
use crate::settlement::fee_payment_of;
use crate::settlement::payout_of;
use crate::settlement::settlement_failure;
use crate::settlement::try_step;
use crate::settlement::Directive;
use crate::settlement::LedgerEvent;
use crate::settlement::Phase;
use crate::settlement::Transfer;
use crate::state::Listing;
use crate::state::ListingStatus;
use crate::state::ListingType;
use crate::state::Registry;
use vstd::prelude::*;

verus! {

/// What a purchase touches: the listing, the registry with its fee rate, the
/// buyer, the party that the buyer names as seller, and the platform's
/// treasury.
#[derive(Clone, Debug, PartialEq, Eq)]
pub struct PurchaseAirRights {
    pub listing: Listing,
    pub registry: Registry,
    pub buyer: Identity,
    pub seller: Identity,
    pub platform_treasury: Identity,
}

/// The listing once `buyer` has bought it.
pub open spec fn sold_to(listing: Listing, buyer: Identity) -> Listing {
    Listing { status: ListingStatus::Sold, buyer: Some(buyer), ..listing }
}

/// One step of a purchase: the records, the phase and the directive that
/// follow from `phase` and `event`.
///
/// A step that fails leaves the records alone and ends the purchase. A
/// request is answered with the payment to the seller, its confirmation with
/// the payment of the fee, and the confirmation of that with the sale.
pub open spec fn purchase_step(ctx: PurchaseAirRights, phase: Phase, event: LedgerEvent) -> (
    PurchaseAirRights,
    Phase,
    Directive,
) {
    match settlement_failure(ctx.listing, ctx.registry, ListingType::Sale, phase, event) {
        Some(failure) => (ctx, Phase::Idle, Directive::Abort(failure)),
        None => match phase {
            Phase::Idle => (
                ctx,
                Phase::AwaitingPayout,
                Directive::Pay(payout_of(ctx.listing, ctx.registry, ctx.buyer, ctx.seller)),
            ),
            Phase::AwaitingPayout => (
                ctx,
                Phase::AwaitingFee,
                Directive::Pay(
                    fee_payment_of(ctx.listing, ctx.registry, ctx.buyer, ctx.platform_treasury),
                ),
            ),
            Phase::AwaitingFee => (
                PurchaseAirRights { listing: sold_to(ctx.listing, ctx.buyer), ..ctx },
                Phase::Idle,
                Directive::Done,
            ),
        },
    }
}

/// Takes a purchase one step further.
///
/// Called with `Phase::Idle` and `LedgerEvent::Begin` it tries the listing,
/// which must be active and for sale, and asks for the payment of the price
/// less the fee to the seller. Called again with the phase it returned and
/// the ledger's answer, it asks for the payment of the fee to the treasury,
/// and after that marks the listing sold to the buyer. Whenever it aborts,
/// the records are untouched.
pub fn purchase_air_rights(ctx: &mut PurchaseAirRights, phase: Phase, event: LedgerEvent) -> (step:
    (Phase, Directive))
    ensures
        (*final(ctx), step.0, step.1) == purchase_step(*old(ctx), phase, event),
        step.1 is Abort ==> *final(ctx) == *old(ctx),
        final(ctx).listing.status != old(ctx).listing.status ==> {
            &&& step.1 is Done
            &&& old(ctx).listing.status == ListingStatus::Active
            &&& old(ctx).listing.listing_type == ListingType::Sale
            &&& final(ctx).listing.status == ListingStatus::Sold
            &&& final(ctx).listing.buyer == Some(old(ctx).buyer)
        },
{
    match try_step(&ctx.listing, &ctx.registry, ListingType::Sale, phase, event) {
        Err(failure) => (Phase::Idle, Directive::Abort(failure)),
        Ok(split) => match phase {
            Phase::Idle => (
                Phase::AwaitingPayout,
                Directive::Pay(
                    Transfer { from: ctx.buyer, to: ctx.seller, amount: split.seller_amount },
                ),
            ),
            Phase::AwaitingPayout => (
                Phase::AwaitingFee,
                Directive::Pay(
                    Transfer {
                        from: ctx.buyer,
                        to: ctx.platform_treasury,
                        amount: split.platform_fee,
                    },
                ),
            ),
            Phase::AwaitingFee => {
                ctx.listing.status = ListingStatus::Sold;
                ctx.listing.buyer = Some(ctx.buyer);
                (Phase::Idle, Directive::Done)
            },
        },
    }
}

} // verus!
