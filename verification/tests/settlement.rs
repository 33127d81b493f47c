use supply_chain::address::Address;
use supply_chain::errors::SupplyChainErrors;
use supply_chain::settlement::{settle_withdrawal, transfer_units, MINIMUM_WITHDRAWAL};
use supply_chain::states::ProgramState;

fn config(owner: Address, fee: u64) -> ProgramState {
    ProgramState { owner, platform_fee: fee, initialized: true }
}

fn platform() -> Address {
    Address::new(7, 7, 7, 7)
}

#[test]
fn fee_split_exact_at_five_percent() {
    // Withdrawing 1,000,000,000 at a five percent fee: the platform
    // receives 50,000,000, the beneficiary 950,000,000, and the source
    // loses exactly the full amount.
    let cfg = config(platform(), 5);
    let s = settle_withdrawal(
        &cfg,
        platform(),
        2_000_000_000,
        3_000_000_000,
        1_000_000,
        10,
        20,
        1_000_000_000,
    )
    .unwrap();
    assert_eq!(s.platform_fee, 50_000_000);
    assert_eq!(s.net, 950_000_000);
    assert_eq!(s.net + s.platform_fee, 1_000_000_000);
    assert_eq!(s.new_balance, 1_000_000_000);
    assert_eq!(s.new_source_units, 2_000_000_000);
    assert_eq!(s.new_caller_units, 10 + 950_000_000);
    assert_eq!(s.new_platform_units, 20 + 50_000_000);
}

#[test]
fn fee_formula_exact_values() {
    // floor(amount * fee / 100) over a spread of percentages.
    let cases: [(u64, u64, u64); 5] = [
        (1_000_000_000, 0, 0),
        (1_000_000_000, 1, 10_000_000),
        (1_000_000_099, 1, 10_000_000),
        (1_999_999_999, 3, 59_999_999),
        (1_000_000_000, 4, 40_000_000),
    ];
    for (amount, fee, expected) in cases {
        let cfg = config(platform(), fee);
        let s = settle_withdrawal(&cfg, platform(), u64::MAX, u64::MAX, 0, 0, 0, amount).unwrap();
        assert_eq!(s.platform_fee, expected, "amount {amount} fee {fee}");
        assert_eq!(s.net, amount - expected);
    }
}

#[test]
fn withdrawal_below_minimum_fails() {
    // One unit under the floor is refused whatever the balances hold.
    let cfg = config(platform(), 2);
    let r = settle_withdrawal(
        &cfg,
        platform(),
        u64::MAX,
        u64::MAX,
        0,
        0,
        0,
        MINIMUM_WITHDRAWAL - 1,
    );
    assert_eq!(r.unwrap_err(), SupplyChainErrors::InsifficentWithdraw);
}

#[test]
fn ledger_insufficient_balance_fails() {
    let cfg = config(platform(), 2);
    let r = settle_withdrawal(
        &cfg,
        platform(),
        MINIMUM_WITHDRAWAL - 1,
        u64::MAX,
        0,
        0,
        0,
        MINIMUM_WITHDRAWAL,
    );
    assert_eq!(r.unwrap_err(), SupplyChainErrors::InsufficientBalance);
}

#[test]
fn reserve_floor_exact_boundary() {
    // Usable balance exactly equal to the amount succeeds; one unit less
    // fails with InsufficientBalance.
    let cfg = config(platform(), 2);
    let reserve: u64 = 2_500_000;
    let amount: u64 = MINIMUM_WITHDRAWAL;
    let exact = settle_withdrawal(
        &cfg,
        platform(),
        amount,
        reserve + amount,
        reserve,
        0,
        0,
        amount,
    );
    assert!(exact.is_ok());
    let short = settle_withdrawal(
        &cfg,
        platform(),
        amount,
        reserve + amount - 1,
        reserve,
        0,
        0,
        amount,
    );
    assert_eq!(short.unwrap_err(), SupplyChainErrors::InsufficientBalance);
}

#[test]
fn platform_address_mismatch_unauthorized() {
    let cfg = config(platform(), 2);
    let r = settle_withdrawal(
        &cfg,
        Address::new(8, 8, 8, 8),
        u64::MAX,
        u64::MAX,
        0,
        0,
        0,
        MINIMUM_WITHDRAWAL,
    );
    assert_eq!(r.unwrap_err(), SupplyChainErrors::UnauthorizedAccess);
}

#[test]
fn fee_scaling_overflow_detected() {
    // amount * fee leaves u64: refused as Overflow, not wrapped.
    let cfg = config(platform(), 5);
    let r = settle_withdrawal(&cfg, platform(), u64::MAX, u64::MAX, 0, 0, 0, u64::MAX);
    assert_eq!(r.unwrap_err(), SupplyChainErrors::Overflow);
}

#[test]
fn transfer_units_moves_exactly() {
    let (payer, recipient) = transfer_units(1_000, 40, 900).unwrap();
    assert_eq!(payer, 100);
    assert_eq!(recipient, 940);
    assert_eq!(payer + recipient, 1_000 + 40);
}

#[test]
fn transfer_units_insufficient_payer() {
    let r = transfer_units(899, 0, 900);
    assert_eq!(r.unwrap_err(), SupplyChainErrors::InsufficientBalance);
}

#[test]
fn transfer_units_recipient_overflow() {
    let r = transfer_units(900, u64::MAX, 900);
    assert_eq!(r.unwrap_err(), SupplyChainErrors::Overflow);
}
