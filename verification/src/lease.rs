//! Leasing a parcel that is offered for lease.

use crate::clock::unix_timestamp;
use crate::error::Failure;
use crate::identity::Identity;
use crate::settlement::fee_payment_of;
use crate::settlement::payout_of;
use crate::settlement::settlement_failure;
use crate::settlement::try_step;
use crate::settlement::Directive;
use crate::settlement::LedgerEvent;
use crate::settlement::Phase;
use crate::settlement::Transfer;
use crate::state::LeaseRecord;
use crate::state::Listing;
use crate::state::ListingStatus;
use crate::state::ListingType;
use crate::state::Registry;
use vstd::prelude::*;

verus! {

/// Seconds in a day of a lease's term.
pub const SECONDS_PER_DAY: i128 = 86_400;

/// What a lease touches: the listing, the registry with its fee rate, the
/// record that receives the lease, the lessee, the party that the lessee
/// names as lessor, and the platform's treasury.
#[derive(Clone, Debug, PartialEq, Eq)]
pub struct LeaseAirRights {
    pub listing: Listing,
    pub registry: Registry,
    pub lease_record: LeaseRecord,
    pub lessee: Identity,
    pub lessor: Identity,
    pub platform_treasury: Identity,
}

/// The second at which a lease of `duration_days` days that starts at `start`
/// runs out.
pub open spec fn lease_end(start: int, duration_days: int) -> int {
    start + duration_days * 86_400
}

/// The listing once `lessee` has leased it.
pub open spec fn leased_to(listing: Listing, lessee: Identity) -> Listing {
    Listing { status: ListingStatus::Leased, buyer: Some(lessee), ..listing }
}

/// The record of a lease that `lessee` takes on `listing` at time `now`: the
/// listing's owner is the lessor, the term runs from `now`, and the whole
/// price counts as paid.
pub open spec fn lease_of(listing: Listing, lessee: Identity, now: i64) -> LeaseRecord {
    LeaseRecord {
        listing_id: listing.listing_id,
        lessor: listing.owner,
        lessee,
        start_date: now,
        end_date: lease_end(now as int, listing.duration_days as int) as i64,
        amount_paid: listing.price,
        is_active: true,
    }
}

/// Whether this step of a lease is the one that writes the lease, and so the
/// one for which the time matters.
pub open spec fn lease_is_due(ctx: LeaseAirRights, phase: Phase, event: LedgerEvent) -> bool {
    phase == Phase::AwaitingFee && settlement_failure(
        ctx.listing,
        ctx.registry,
        ListingType::Lease,
        phase,
        event,
    ) is None
}

/// One step of a lease at time `now`: the records, the phase and the
/// directive that follow from `phase` and `event`.
///
/// A step that fails leaves the records alone and ends the lease. A request
/// is answered with the payment to the lessor, its confirmation with the
/// payment of the fee, and the confirmation of that with the lease itself,
/// unless its term would end after the last second that can be told.
pub open spec fn lease_step(ctx: LeaseAirRights, phase: Phase, event: LedgerEvent, now: i64) -> (
    LeaseAirRights,
    Phase,
    Directive,
) {
    match settlement_failure(ctx.listing, ctx.registry, ListingType::Lease, phase, event) {
        Some(failure) => (ctx, Phase::Idle, Directive::Abort(failure)),
        None => match phase {
            Phase::Idle => (
                ctx,
                Phase::AwaitingPayout,
                Directive::Pay(payout_of(ctx.listing, ctx.registry, ctx.lessee, ctx.lessor)),
            ),
            Phase::AwaitingPayout => (
                ctx,
                Phase::AwaitingFee,
                Directive::Pay(
                    fee_payment_of(ctx.listing, ctx.registry, ctx.lessee, ctx.platform_treasury),
                ),
            ),
            Phase::AwaitingFee => if lease_end(now as int, ctx.listing.duration_days as int)
                > i64::MAX {
                (ctx, Phase::Idle, Directive::Abort(Failure::Arithmetic))
            } else {
                (
                    LeaseAirRights {
                        listing: leased_to(ctx.listing, ctx.lessee),
                        lease_record: lease_of(ctx.listing, ctx.lessee, now),
                        ..ctx
                    },
                    Phase::Idle,
                    Directive::Done,
                )
            },
        },
    }
}

/// Takes a lease through every step but the last; `None` when the last step,
/// writing the lease, is due.
fn lease_turn(ctx: &LeaseAirRights, phase: Phase, event: LedgerEvent) -> (step: Option<
    (Phase, Directive),
>)
    ensures
        step is None <==> lease_is_due(*ctx, phase, event),
        step matches Some(s) ==> !(s.1 is Done) && forall|now: i64|
            (*ctx, s.0, s.1) == #[trigger] lease_step(*ctx, phase, event, now),
{
    match try_step(&ctx.listing, &ctx.registry, ListingType::Lease, phase, event) {
        Err(failure) => Some((Phase::Idle, Directive::Abort(failure))),
        Ok(split) => match phase {
            Phase::Idle => Some(
                (
                    Phase::AwaitingPayout,
                    Directive::Pay(
                        Transfer { from: ctx.lessee, to: ctx.lessor, amount: split.seller_amount },
                    ),
                ),
            ),
            Phase::AwaitingPayout => Some(
                (
                    Phase::AwaitingFee,
                    Directive::Pay(
                        Transfer {
                            from: ctx.lessee,
                            to: ctx.platform_treasury,
                            amount: split.platform_fee,
                        },
                    ),
                ),
            ),
            Phase::AwaitingFee => None,
        },
    }
}

/// Writes the lease, the last step of one, at time `now`.
fn write_lease(ctx: &mut LeaseAirRights, event: LedgerEvent, now: i64) -> (step: (
    Phase,
    Directive,
))
    requires
        lease_is_due(*old(ctx), Phase::AwaitingFee, event),
    ensures
        (*final(ctx), step.0, step.1) == lease_step(*old(ctx), Phase::AwaitingFee, event, now),
{
    let term: i128 = (ctx.listing.duration_days as i128) * SECONDS_PER_DAY;
    let end: i128 = (now as i128) + term;
    if end > i64::MAX as i128 {
        (Phase::Idle, Directive::Abort(Failure::Arithmetic))
    } else {
        ctx.lease_record =
        LeaseRecord {
            listing_id: ctx.listing.listing_id,
            lessor: ctx.listing.owner,
            lessee: ctx.lessee,
            start_date: now,
            end_date: end as i64,
            amount_paid: ctx.listing.price,
            is_active: true,
        };
        ctx.listing.status = ListingStatus::Leased;
        ctx.listing.buyer = Some(ctx.lessee);
        (Phase::Idle, Directive::Done)
    }
}

/// Takes a lease one step further, at time `now`.
///
/// Called with `Phase::Idle` and `LedgerEvent::Begin` it tries the listing,
/// which must be active and for lease, and asks for the payment of the price
/// less the fee to the lessor. Called again with the phase it returned and
/// the ledger's answer, it asks for the payment of the fee to the treasury,
/// and after that writes the lease, which starts at `now`, and marks the
/// listing leased to the lessee. Whenever it aborts, the records are
/// untouched.
pub fn lease_air_rights_at(
    ctx: &mut LeaseAirRights,
    phase: Phase,
    event: LedgerEvent,
    now: i64,
) -> (step: (Phase, Directive))
    ensures
        (*final(ctx), step.0, step.1) == lease_step(*old(ctx), phase, event, now),
        step.1 is Abort ==> *final(ctx) == *old(ctx),
        final(ctx).listing.status != old(ctx).listing.status ==> {
            &&& step.1 is Done
            &&& old(ctx).listing.status == ListingStatus::Active
            &&& old(ctx).listing.listing_type == ListingType::Lease
            &&& final(ctx).listing.status == ListingStatus::Leased
            &&& final(ctx).listing.buyer == Some(old(ctx).lessee)
        },
        step.1 is Done ==> {
            &&& final(ctx).lease_record.start_date == now
            &&& final(ctx).lease_record.end_date == now + old(ctx).listing.duration_days * 86_400
            &&& final(ctx).lease_record.is_active
        },
{
    match lease_turn(ctx, phase, event) {
        Some(step) => step,
        None => write_lease(ctx, event, now),
    }
}

/// Takes a lease one step further, reading the runtime's clock when the lease
/// is to be written.
///
/// Every step but the last goes as in `lease_air_rights_at`, whatever the
/// time. For the last the clock is read: if the runtime refuses, the lease is
/// off, with the runtime's error in `Failure::Clock` and the records
/// untouched; otherwise the step goes as in `lease_air_rights_at` at the time
/// read.
pub fn lease_air_rights(ctx: &mut LeaseAirRights, phase: Phase, event: LedgerEvent) -> (step: (
    Phase,
    Directive,
))
    ensures
        !lease_is_due(*old(ctx), phase, event) ==> forall|now: i64|
            (*final(ctx), step.0, step.1) == #[trigger] lease_step(*old(ctx), phase, event, now),
        lease_is_due(*old(ctx), phase, event) ==> {
            ||| {
                &&& step.1 matches Directive::Abort(failure)
                &&& failure is Clock
                &&& step.0 == Phase::Idle
            }
            ||| exists|now: i64|
                (*final(ctx), step.0, step.1) == #[trigger] lease_step(
                    *old(ctx),
                    phase,
                    event,
                    now,
                )
        },
        step.1 is Done ==> (*final(ctx), step.0, step.1) == lease_step(
            *old(ctx),
            phase,
            event,
            final(ctx).lease_record.start_date,
        ),
        step.1 is Abort ==> *final(ctx) == *old(ctx),
        final(ctx).listing.status != old(ctx).listing.status ==> {
            &&& step.1 is Done
            &&& old(ctx).listing.status == ListingStatus::Active
            &&& old(ctx).listing.listing_type == ListingType::Lease
            &&& final(ctx).listing.status == ListingStatus::Leased
            &&& final(ctx).listing.buyer == Some(old(ctx).lessee)
        },
{
    match lease_turn(ctx, phase, event) {
        Some(step) => step,
        None => match unix_timestamp() {
            Err(refusal) => (Phase::Idle, Directive::Abort(Failure::Clock(refusal))),
            Ok(now) => write_lease(ctx, event, now),
        },
    }
}

} // verus!
