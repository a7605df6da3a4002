//! Settling a listing against the ledger, one transfer at a time.
//!
//! The marketplace does not move funds itself. A settlement names the next
//! transfer, the caller has the ledger make it and reports how it went, and
//! the listing changes hands only when both transfers are confirmed.

use crate::error::ErrorCode;
use crate::error::Failure;
use crate::error::TransferError;
use crate::fees::platform_fee_of;
use crate::fees::seller_amount_of;
use crate::fees::split_fee;
use crate::fees::FeeSplit;
use crate::identity::Identity;
use crate::state::Listing;
use crate::state::ListingStatus;
use crate::state::ListingType;
use crate::state::Registry;
use vstd::prelude::*;

verus! {

/// A movement of funds that the ledger is asked to make.
#[derive(Clone, Copy, Debug, PartialEq, Eq)]
pub struct Transfer {
    pub from: Identity,
    pub to: Identity,
    pub amount: u64,
}

/// How far a settlement has come.
#[derive(Clone, Copy, Debug, PartialEq, Eq, Hash, Structural)]
pub enum Phase {
    /// Nothing has been asked of the ledger.
    Idle,
    /// The payment to the seller or lessor is with the ledger.
    AwaitingPayout,
    /// The payment to the platform's treasury is with the ledger.
    AwaitingFee,
}

/// What the caller reports to a settlement.
#[derive(Clone, Copy, Debug, PartialEq, Eq, Hash, Structural)]
pub enum LedgerEvent {
    /// The settlement is requested.
    Begin,
    /// The ledger made the transfer that was asked for last.
    Confirmed,
    /// The ledger declined the transfer that was asked for last.
    Refused(TransferError),
}

/// What a settlement asks of the caller next.
#[derive(Debug, PartialEq, Eq)]
pub enum Directive {
    /// Have the ledger make this transfer, and report how it went.
    Pay(Transfer),
    /// The listing is settled; nothing is left to do.
    Done,
    /// The settlement is off and the records are as they were before it.
    Abort(Failure),
}

/// Whether a settlement in `phase` is waiting for `event`: for a request
/// while idle, for the ledger's answer while a transfer is out.
pub open spec fn in_turn(phase: Phase, event: LedgerEvent) -> bool {
    match phase {
        Phase::Idle => event is Begin,
        _ => !(event is Begin),
    }
}

/// The code that turns away a taker who wants `wanted` from a listing that
/// does not offer it.
pub open spec fn not_on_offer(wanted: ListingType) -> ErrorCode {
    match wanted {
        ListingType::Sale => ErrorCode::NotForSale,
        ListingType::Lease => ErrorCode::NotForLease,
    }
}

/// The rule that keeps `listing` from being settled as `wanted`, if one does:
/// it must be active, and offered in that way.
pub open spec fn offer_error(listing: Listing, wanted: ListingType) -> Option<ErrorCode> {
    if listing.status != ListingStatus::Active {
        Some(ErrorCode::ListingNotActive)
    } else if listing.listing_type != wanted {
        Some(not_on_offer(wanted))
    } else {
        None
    }
}

/// Why a settlement stops at this step, if it does. In this order: the event
/// is not the one awaited; the ledger declined; the listing cannot be settled
/// as `wanted`; the fee exceeds the price.
pub open spec fn settlement_failure(
    listing: Listing,
    registry: Registry,
    wanted: ListingType,
    phase: Phase,
    event: LedgerEvent,
) -> Option<Failure> {
    if !in_turn(phase, event) {
        Some(Failure::OutOfTurn)
    } else if let LedgerEvent::Refused(reason) = event {
        Some(Failure::Ledger(reason))
    } else if let Some(code) = offer_error(listing, wanted) {
        Some(Failure::Rejected(code))
    } else if platform_fee_of(listing.price as int, registry.platform_fee_bps as int)
        > listing.price {
        Some(Failure::Arithmetic)
    } else {
        None
    }
}

/// The payment of a listing's price, less the platform's fee, by `payer` to
/// `payee`.
pub open spec fn payout_of(
    listing: Listing,
    registry: Registry,
    payer: Identity,
    payee: Identity,
) -> Transfer {
    Transfer {
        from: payer,
        to: payee,
        amount: seller_amount_of(listing.price as int, registry.platform_fee_bps as int) as u64,
    }
}

/// The payment of the platform's fee on a listing's price by `payer` to
/// `treasury`.
pub open spec fn fee_payment_of(
    listing: Listing,
    registry: Registry,
    payer: Identity,
    treasury: Identity,
) -> Transfer {
    Transfer {
        from: payer,
        to: treasury,
        amount: platform_fee_of(listing.price as int, registry.platform_fee_bps as int) as u64,
    }
}

/// Tries a step of a settlement, and on a pass divides the price.
pub(crate) fn try_step(
    listing: &Listing,
    registry: &Registry,
    wanted: ListingType,
    phase: Phase,
    event: LedgerEvent,
) -> (outcome: Result<FeeSplit, Failure>)
    ensures
        match settlement_failure(*listing, *registry, wanted, phase, event) {
            Some(failure) => outcome == Err::<FeeSplit, Failure>(failure),
            None => outcome matches Ok(split) && split.platform_fee == platform_fee_of(
                listing.price as int,
                registry.platform_fee_bps as int,
            ) && split.seller_amount == seller_amount_of(
                listing.price as int,
                registry.platform_fee_bps as int,
            ),
        },
{
    let awaited: bool = match phase {
        Phase::Idle => match event {
            LedgerEvent::Begin => true,
            _ => false,
        },
        _ => match event {
            LedgerEvent::Begin => false,
            _ => true,
        },
    };
    if !awaited {
        return Err(Failure::OutOfTurn);
    }
    if let LedgerEvent::Refused(reason) = event {
        return Err(Failure::Ledger(reason));
    }
    if listing.status != ListingStatus::Active {
        return Err(Failure::Rejected(ErrorCode::ListingNotActive));
    }
    if listing.listing_type != wanted {
        let code: ErrorCode = match wanted {
            ListingType::Sale => ErrorCode::NotForSale,
            ListingType::Lease => ErrorCode::NotForLease,
        };
        return Err(Failure::Rejected(code));
    }
    match split_fee(listing.price, registry.platform_fee_bps) {
        Some(split) => Ok(split),
        None => Err(Failure::Arithmetic),
    }
}

} // verus!
