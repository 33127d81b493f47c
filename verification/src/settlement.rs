use crate::address::Address;
use crate::errors::SupplyChainErrors;
use crate::states::{ProgramState, Transaction};
use vstd::prelude::*;

verus! {

/// The smallest amount a withdrawal may move: one whole currency unit
/// scaled to the smallest denomination.
pub const MINIMUM_WITHDRAWAL: u64 = 1_000_000_000;

/// The platform's cut of a withdrawal: `floor(amount * fee_percent / 100)`.
pub open spec fn spec_platform_fee(amount: u64, fee_percent: u64) -> int {
    (amount * fee_percent) / 100
}

/// What the beneficiary keeps of a withdrawal after the platform's cut.
pub open spec fn spec_net_amount(amount: u64, fee_percent: u64) -> int {
    amount - spec_platform_fee(amount, fee_percent)
}

/// The balance changes a successful withdrawal settlement commits: the fee
/// split, the source record's ledger balance and the three account balances
/// after the two transfers.
#[derive(Clone, Debug)]
pub struct Settlement {
    /// What the caller's payout address receives.
    pub net: u64,
    /// What the platform address receives.
    pub platform_fee: u64,
    /// The source record's ledger balance after the withdrawal.
    pub new_balance: u64,
    /// The source account's units after both transfers.
    pub new_source_units: u64,
    /// The caller's account units after receiving the net amount.
    pub new_caller_units: u64,
    /// The platform's account units after receiving the fee.
    pub new_platform_units: u64,
}

/// The settlement decision, checked in the order the operation performs it:
/// the withdrawal floor, ledger sufficiency, the reserve floor on the
/// source account's usable units, the fee split's overflow checks, the
/// platform address, and room on the receiving side.
pub open spec fn spec_settle_outcome(
    config: ProgramState,
    platform_address: Address,
    balance: u64,
    source_units: u64,
    reserve: u64,
    caller_units: u64,
    platform_units: u64,
    amount: u64,
) -> Result<(), SupplyChainErrors> {
    if amount < MINIMUM_WITHDRAWAL {
        Err(SupplyChainErrors::InsifficentWithdraw)
    } else if balance < amount {
        Err(SupplyChainErrors::InsufficientBalance)
    } else if source_units < reserve + amount {
        Err(SupplyChainErrors::InsufficientBalance)
    } else if amount * config.platform_fee > u64::MAX {
        Err(SupplyChainErrors::Overflow)
    } else if spec_platform_fee(amount, config.platform_fee) > amount {
        Err(SupplyChainErrors::Overflow)
    } else if platform_address != config.owner {
        Err(SupplyChainErrors::UnauthorizedAccess)
    } else if caller_units + spec_net_amount(amount, config.platform_fee) > u64::MAX
        || platform_units + spec_platform_fee(amount, config.platform_fee) > u64::MAX {
        Err(SupplyChainErrors::Overflow)
    } else {
        Ok(())
    }
}

/// What a whole withdrawal operation decides: authorization first, then the
/// settlement decision, then room in the caller identity's transaction
/// counter for the appended record.
pub open spec fn spec_withdraw_outcome(
    auth_ok: bool,
    config: ProgramState,
    platform_address: Address,
    balance: u64,
    source_units: u64,
    reserve: u64,
    caller_units: u64,
    platform_units: u64,
    amount: u64,
    transaction_count: u64,
) -> Result<(), SupplyChainErrors> {
    if !auth_ok {
        Err(SupplyChainErrors::UnauthorizedAccess)
    } else {
        match spec_settle_outcome(
            config, platform_address, balance, source_units, reserve,
            caller_units, platform_units, amount,
        ) {
            Err(e) => Err(e),
            Ok(()) => if transaction_count == u64::MAX {
                Err(SupplyChainErrors::Overflow)
            } else {
                Ok(())
            },
        }
    }
}

/// What a successful withdrawal hands back to the caller: the committed
/// balance changes and the appended transaction record.
#[derive(Clone, Debug)]
pub struct WithdrawalReceipt {
    pub settlement: Settlement,
    pub transaction: Transaction,
}

/// The shared settlement routine behind every withdrawal.
///
/// Authorization against the source record's owner and role is the caller's
/// step; everything after it happens here: the floor check on `amount`, the
/// ledger and reserve-floor checks, the fee split, the platform address
/// check, and the computation of every balance after the two transfers.
/// Nothing is mutated: the caller commits the returned `Settlement` only on
/// success, which keeps a failed withdrawal free of observable effects.
pub fn settle_withdrawal(
    config: &ProgramState,
    platform_address: Address,
    balance: u64,
    source_units: u64,
    reserve: u64,
    caller_units: u64,
    platform_units: u64,
    amount: u64,
) -> (r: Result<Settlement, SupplyChainErrors>)
    ensures
        r matches Err(e) ==> spec_settle_outcome(
            *config, platform_address, balance, source_units, reserve,
            caller_units, platform_units, amount,
        ) == Err::<(), SupplyChainErrors>(e),
        r is Ok <==> spec_settle_outcome(
            *config, platform_address, balance, source_units, reserve,
            caller_units, platform_units, amount,
        ) is Ok,
        r matches Ok(s) ==> {
            &&& s.platform_fee == spec_platform_fee(amount, config.platform_fee)
            &&& s.net == spec_net_amount(amount, config.platform_fee)
            &&& s.net + s.platform_fee == amount
            &&& s.new_balance == balance - amount
            &&& s.new_source_units == source_units - amount
            &&& s.new_caller_units == caller_units + s.net
            &&& s.new_platform_units == platform_units + s.platform_fee
            &&& amount >= MINIMUM_WITHDRAWAL
            &&& balance >= amount
            &&& source_units >= reserve + amount
            &&& platform_address == config.owner
        },
{
    if amount < MINIMUM_WITHDRAWAL {
        return Err(SupplyChainErrors::InsifficentWithdraw);
    }
    if balance < amount {
        return Err(SupplyChainErrors::InsufficientBalance);
    }
    if source_units < reserve || source_units - reserve < amount {
        return Err(SupplyChainErrors::InsufficientBalance);
    }
    let platform_fee = match amount.checked_mul(config.platform_fee) {
        Some(scaled) => scaled / 100,
        None => {
            return Err(SupplyChainErrors::Overflow);
        },
    };
    let net = match amount.checked_sub(platform_fee) {
        Some(net) => net,
        None => {
            return Err(SupplyChainErrors::Overflow);
        },
    };
    if platform_address != config.owner {
        return Err(SupplyChainErrors::UnauthorizedAccess);
    }
    let new_caller_units = match caller_units.checked_add(net) {
        Some(units) => units,
        None => {
            return Err(SupplyChainErrors::Overflow);
        },
    };
    let new_platform_units = match platform_units.checked_add(platform_fee) {
        Some(units) => units,
        None => {
            return Err(SupplyChainErrors::Overflow);
        },
    };
    Ok(Settlement {
        net,
        platform_fee,
        new_balance: balance - amount,
        new_source_units: source_units - amount,
        new_caller_units,
        new_platform_units,
    })
}

/// The raw value-transfer pattern behind every inter-party purchase: move
/// `amount` from the payer's account to the recipient's, with no fee split
/// and no reserve check.  Nothing is mutated; the caller commits the two
/// returned balances only on success.
pub fn transfer_units(
    payer_units: u64,
    recipient_units: u64,
    amount: u64,
) -> (r: Result<(u64, u64), SupplyChainErrors>)
    ensures
        r is Ok <==> payer_units >= amount && recipient_units + amount <= u64::MAX,
        r matches Ok(units) ==> {
            &&& units.0 == payer_units - amount
            &&& units.1 == recipient_units + amount
            &&& units.0 + units.1 == payer_units + recipient_units
        },
        r matches Err(e) ==> e == (if payer_units < amount {
            SupplyChainErrors::InsufficientBalance
        } else {
            SupplyChainErrors::Overflow
        }),
{
    if payer_units < amount {
        return Err(SupplyChainErrors::InsufficientBalance);
    }
    match recipient_units.checked_add(amount) {
        Some(new_recipient_units) => Ok((payer_units - amount, new_recipient_units)),
        None => Err(SupplyChainErrors::Overflow),
    }
}

} // verus!
