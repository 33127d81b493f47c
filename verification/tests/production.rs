use supply_chain::address::Address;
use supply_chain::distribution::{buy_product_as_warehouse, create_warehouse_instrution};
use supply_chain::errors::SupplyChainErrors;
use supply_chain::identity::create_user;
use supply_chain::production::{
    create_factory, create_product, inspect_product_instruction,
    pay_product_inspector_instruction, withdraw_balance_as_factory,
};
use supply_chain::states::{ProgramState, Role, User};

fn blank_user() -> User {
    User {
        name: String::new(),
        role: Role::Other,
        email: String::new(),
        created_at: 0,
        owner: Address::new(0, 0, 0, 0),
        factory_count: 0,
        transaction_count: 0,
        warehouse_count: 0,
        logistics_count: 0,
        seller_count: 0,
        inspector_count: 0,
        product_count: 0,
        is_customer: false,
        is_initialized: false,
    }
}

fn registered(owner: Address, role: &str) -> User {
    let mut user = blank_user();
    create_user(
        &mut user,
        owner,
        String::from("someone"),
        String::from("someone@example.com"),
        String::from(role),
        1,
    )
    .unwrap();
    user
}

#[test]
fn create_factory_role_enforced() {
    let owner = Address::new(1, 0, 0, 0);
    let mut user = registered(owner, "SELLER");
    let r = create_factory(
        &mut user,
        owner,
        String::from("plant"),
        String::from("a plant"),
        12,
        34,
        String::from("call us"),
        5,
    );
    assert_eq!(r.unwrap_err(), SupplyChainErrors::UnauthorizedAccess);
    assert_eq!(user.factory_count, 0);
}

#[test]
fn factory_ids_monotonic_from_one() {
    let owner = Address::new(1, 0, 0, 0);
    let mut user = registered(owner, "FACTORY");
    let first = create_factory(
        &mut user,
        owner,
        String::from("plant one"),
        String::from("d"),
        0,
        0,
        String::from("c"),
        5,
    )
    .unwrap();
    let second = create_factory(
        &mut user,
        owner,
        String::from("plant two"),
        String::from("d"),
        0,
        0,
        String::from("c"),
        6,
    )
    .unwrap();
    assert_eq!(first.factory_id, 1);
    assert_eq!(second.factory_id, 2);
    assert_eq!(user.factory_count, 2);
    assert_eq!(first.balance, 0);
    assert_eq!(first.product_count, 0);
}

#[test]
fn product_ids_monotonic_from_one() {
    let owner = Address::new(1, 0, 0, 0);
    let mut user = registered(owner, "FACTORY");
    let mut factory = create_factory(
        &mut user,
        owner,
        String::from("plant"),
        String::from("d"),
        0,
        0,
        String::from("c"),
        5,
    )
    .unwrap();
    let factory_addr = Address::new(2, 0, 0, 0);
    let first = create_product(
        &mut factory,
        factory_addr,
        String::from("widget"),
        String::from("a widget"),
        String::from("img"),
        String::from("b1"),
        10,
        3,
        100,
        15,
        7,
    )
    .unwrap();
    let second = create_product(
        &mut factory,
        factory_addr,
        String::from("widget"),
        String::from("a widget"),
        String::from("img"),
        String::from("b2"),
        10,
        3,
        100,
        15,
        8,
    )
    .unwrap();
    assert_eq!(first.product_id, 1);
    assert_eq!(second.product_id, 2);
    assert_eq!(factory.product_count, 2);
    assert!(!first.quality_checked);
    assert!(!first.inspection_fee_paid);
    assert_eq!(first.factory_pda, factory_addr);
}

#[test]
fn full_chain_inspection_payment_and_wholesale() {
    // Register a FACTORY identity, create a factory and a product with
    // stock 100 at price 10, inspect it at one unit of fee per product,
    // pay the inspector 100, then register a WAREHOUSE identity and buy
    // 40 units: stock drops to 60, the factory's balance grows by 400 and
    // the warehouse holds 40.
    let factory_owner = Address::new(1, 0, 0, 0);
    let mut factory_user = registered(factory_owner, "FACTORY");
    let mut factory = create_factory(
        &mut factory_user,
        factory_owner,
        String::from("plant"),
        String::from("d"),
        0,
        0,
        String::from("c"),
        5,
    )
    .unwrap();
    let factory_addr = Address::new(2, 0, 0, 0);
    let mut product = create_product(
        &mut factory,
        factory_addr,
        String::from("widget"),
        String::from("a widget"),
        String::from("img"),
        String::from("b1"),
        10,
        3,
        100,
        15,
        7,
    )
    .unwrap();

    let inspector_owner = Address::new(3, 0, 0, 0);
    let mut inspector_user = registered(inspector_owner, "INSPECTOR");
    let inspector_addr = Address::new(4, 0, 0, 0);
    let mut inspector = inspect_product_instruction(
        &mut inspector_user,
        &mut product,
        &factory,
        inspector_owner,
        inspector_addr,
        String::from("check"),
        0,
        0,
        1,
        String::from("PASSED"),
        String::from("clean"),
        1,
        9,
    )
    .unwrap();
    assert_eq!(inspector.inspector_id, 1);
    assert!(product.quality_checked);
    assert_eq!(product.inspection_id, 1);

    let payment = pay_product_inspector_instruction(
        &mut factory_user,
        &mut inspector,
        &mut product,
        factory_owner,
        inspector_addr,
        1_000,
        0,
        1,
        1,
        10,
    )
    .unwrap();
    assert_eq!(payment.amount, 100);
    assert_eq!(payment.new_payer_units, 900);
    assert_eq!(payment.new_inspector_units, 100);
    assert_eq!(inspector.balance, 100);
    assert!(product.inspection_fee_paid);
    assert_eq!(payment.transaction.transaction_id, 1);
    assert_eq!(factory_user.transaction_count, 1);

    let warehouse_owner = Address::new(5, 0, 0, 0);
    let mut warehouse_user = registered(warehouse_owner, "WAREHOUSE");
    let mut warehouse = create_warehouse_instrution(
        &mut warehouse_user,
        &factory,
        &product,
        warehouse_owner,
        Address::new(6, 0, 0, 0),
        String::from("shed"),
        String::from("d"),
        String::from("c"),
        1,
        5_000,
        0,
        0,
        11,
    )
    .unwrap();
    assert_eq!(warehouse.warehouse_id, 1);

    let purchase = buy_product_as_warehouse(
        &mut warehouse_user,
        &mut warehouse,
        &mut product,
        &mut factory,
        warehouse_owner,
        factory_addr,
        10_000,
        0,
        1,
        1,
        40,
        12,
    )
    .unwrap();
    assert_eq!(purchase.total_price, 400);
    assert_eq!(product.product_stock, 60);
    assert_eq!(factory.balance, 400);
    assert_eq!(warehouse.product_count, 40);
    assert_eq!(purchase.new_payer_units, 9_600);
    assert_eq!(purchase.new_factory_units, 400);
}

#[test]
fn reinspection_fails_quality_checked() {
    let owner = Address::new(1, 0, 0, 0);
    let mut factory_user = registered(owner, "FACTORY");
    let mut factory = create_factory(
        &mut factory_user,
        owner,
        String::from("plant"),
        String::from("d"),
        0,
        0,
        String::from("c"),
        5,
    )
    .unwrap();
    let mut product = create_product(
        &mut factory,
        Address::new(2, 0, 0, 0),
        String::from("widget"),
        String::from("a widget"),
        String::from("img"),
        String::from("b1"),
        10,
        3,
        100,
        15,
        7,
    )
    .unwrap();
    let inspector_owner = Address::new(3, 0, 0, 0);
    let mut inspector_user = registered(inspector_owner, "INSPECTOR");
    inspect_product_instruction(
        &mut inspector_user,
        &mut product,
        &factory,
        inspector_owner,
        Address::new(4, 0, 0, 0),
        String::from("check"),
        0,
        0,
        1,
        String::from("PASSED"),
        String::from("clean"),
        1,
        9,
    )
    .unwrap();
    assert!(product.quality_checked);
    let again = inspect_product_instruction(
        &mut inspector_user,
        &mut product,
        &factory,
        inspector_owner,
        Address::new(4, 0, 0, 0),
        String::from("check"),
        0,
        0,
        1,
        String::from("PASSED"),
        String::from("clean"),
        1,
        10,
    );
    assert_eq!(again.unwrap_err(), SupplyChainErrors::QualityChecked);
    assert!(product.quality_checked);
    assert_eq!(inspector_user.inspector_count, 1);
}

#[test]
fn pay_inspector_requires_quality_check() {
    let owner = Address::new(1, 0, 0, 0);
    let mut factory_user = registered(owner, "FACTORY");
    let mut factory = create_factory(
        &mut factory_user,
        owner,
        String::from("plant"),
        String::from("d"),
        0,
        0,
        String::from("c"),
        5,
    )
    .unwrap();
    let mut product = create_product(
        &mut factory,
        Address::new(2, 0, 0, 0),
        String::from("widget"),
        String::from("a widget"),
        String::from("img"),
        String::from("b1"),
        10,
        3,
        100,
        15,
        7,
    )
    .unwrap();
    let mut inspector = supply_chain::states::ProductInspector {
        inspector_id: 1,
        name: String::from("check"),
        latitude: 0,
        longitude: 0,
        product_id: 1,
        inspection_outcome: String::new(),
        notes: String::new(),
        inspection_date: 0,
        fee_charge_per_product: 1,
        balance: 0,
        owner: Address::new(3, 0, 0, 0),
    };
    let r = pay_product_inspector_instruction(
        &mut factory_user,
        &mut inspector,
        &mut product,
        owner,
        Address::new(4, 0, 0, 0),
        1_000,
        0,
        0,
        1,
        10,
    );
    assert_eq!(r.unwrap_err(), SupplyChainErrors::ProductNotQualityChecked);
    assert!(!product.inspection_fee_paid);
}

#[test]
fn pay_inspector_wrong_inspector_id() {
    let owner = Address::new(1, 0, 0, 0);
    let mut factory_user = registered(owner, "FACTORY");
    let mut factory = create_factory(
        &mut factory_user,
        owner,
        String::from("plant"),
        String::from("d"),
        0,
        0,
        String::from("c"),
        5,
    )
    .unwrap();
    let mut product = create_product(
        &mut factory,
        Address::new(2, 0, 0, 0),
        String::from("widget"),
        String::from("a widget"),
        String::from("img"),
        String::from("b1"),
        10,
        3,
        100,
        15,
        7,
    )
    .unwrap();
    let inspector_owner = Address::new(3, 0, 0, 0);
    let mut inspector_user = registered(inspector_owner, "INSPECTOR");
    let mut inspector = inspect_product_instruction(
        &mut inspector_user,
        &mut product,
        &factory,
        inspector_owner,
        Address::new(4, 0, 0, 0),
        String::from("check"),
        0,
        0,
        1,
        String::from("PASSED"),
        String::from("clean"),
        1,
        9,
    )
    .unwrap();
    let r = pay_product_inspector_instruction(
        &mut factory_user,
        &mut inspector,
        &mut product,
        owner,
        Address::new(4, 0, 0, 0),
        1_000,
        0,
        99,
        1,
        10,
    );
    assert_eq!(r.unwrap_err(), SupplyChainErrors::InvalidInspectorId);
}

#[test]
fn factory_withdrawal_splits_and_debits() {
    // The whole-operation version of the five percent split: the factory
    // loses exactly 1,000,000,000 of ledger balance, the owner's account
    // gains 950,000,000 and the platform's 50,000,000.
    let owner = Address::new(1, 0, 0, 0);
    let platform = Address::new(9, 0, 0, 0);
    let mut user = registered(owner, "FACTORY");
    let mut factory = create_factory(
        &mut user,
        owner,
        String::from("plant"),
        String::from("d"),
        0,
        0,
        String::from("c"),
        5,
    )
    .unwrap();
    factory.balance = 2_000_000_000;
    let config = ProgramState { owner: platform, platform_fee: 5, initialized: true };
    let receipt = withdraw_balance_as_factory(
        &mut factory,
        &mut user,
        &config,
        owner,
        platform,
        Address::new(2, 0, 0, 0),
        3_000_000_000,
        1_000_000,
        500,
        600,
        1_000_000_000,
        13,
    )
    .unwrap();
    assert_eq!(receipt.settlement.platform_fee, 50_000_000);
    assert_eq!(receipt.settlement.net, 950_000_000);
    assert_eq!(factory.balance, 1_000_000_000);
    assert_eq!(receipt.settlement.new_source_units, 2_000_000_000);
    assert_eq!(receipt.settlement.new_caller_units, 500 + 950_000_000);
    assert_eq!(receipt.settlement.new_platform_units, 600 + 50_000_000);
    assert_eq!(receipt.transaction.amount, 1_000_000_000);
    assert_eq!(receipt.transaction.transaction_id, 1);
    assert_eq!(user.transaction_count, 1);
}

#[test]
fn factory_withdrawal_requires_ownership_and_role() {
    let owner = Address::new(1, 0, 0, 0);
    let platform = Address::new(9, 0, 0, 0);
    let mut user = registered(owner, "FACTORY");
    let mut factory = create_factory(
        &mut user,
        owner,
        String::from("plant"),
        String::from("d"),
        0,
        0,
        String::from("c"),
        5,
    )
    .unwrap();
    factory.balance = 2_000_000_000;
    let config = ProgramState { owner: platform, platform_fee: 5, initialized: true };
    let r = withdraw_balance_as_factory(
        &mut factory,
        &mut user,
        &config,
        Address::new(8, 8, 8, 8),
        platform,
        Address::new(2, 0, 0, 0),
        3_000_000_000,
        1_000_000,
        0,
        0,
        1_000_000_000,
        13,
    );
    assert_eq!(r.unwrap_err(), SupplyChainErrors::UnauthorizedAccess);
    assert_eq!(factory.balance, 2_000_000_000);
    assert_eq!(user.transaction_count, 0);
}

#[test]
fn create_factory_description_and_contact_bounds() {
    let owner = Address::new(1, 0, 0, 0);
    let mut user = registered(owner, "FACTORY");
    let long_description = create_factory(
        &mut user,
        owner,
        String::from("plant"),
        "d".repeat(513),
        0,
        0,
        String::from("c"),
        5,
    );
    assert_eq!(
        long_description.unwrap_err(),
        SupplyChainErrors::InvalidDescription
    );
    let long_contact = create_factory(
        &mut user,
        owner,
        String::from("plant"),
        String::from("d"),
        0,
        0,
        "c".repeat(513),
        5,
    );
    assert_eq!(long_contact.unwrap_err(), SupplyChainErrors::InvalidContactInfo);
    assert_eq!(user.factory_count, 0);
}

#[test]
fn inspection_field_bounds_and_factory_link() {
    let owner = Address::new(1, 0, 0, 0);
    let mut factory_user = registered(owner, "FACTORY");
    let mut factory = create_factory(
        &mut factory_user,
        owner,
        String::from("plant"),
        String::from("d"),
        0,
        0,
        String::from("c"),
        5,
    )
    .unwrap();
    let mut product = create_product(
        &mut factory,
        Address::new(2, 0, 0, 0),
        String::from("widget"),
        String::from("a widget"),
        String::from("img"),
        String::from("b1"),
        10,
        3,
        100,
        15,
        7,
    )
    .unwrap();
    let inspector_owner = Address::new(3, 0, 0, 0);
    let mut inspector_user = registered(inspector_owner, "INSPECTOR");

    let long_outcome = inspect_product_instruction(
        &mut inspector_user,
        &mut product,
        &factory,
        inspector_owner,
        Address::new(4, 0, 0, 0),
        String::from("check"),
        0,
        0,
        1,
        "o".repeat(121),
        String::from("clean"),
        1,
        9,
    );
    assert_eq!(
        long_outcome.unwrap_err(),
        SupplyChainErrors::InvalidInspectionOutcome
    );

    let long_notes = inspect_product_instruction(
        &mut inspector_user,
        &mut product,
        &factory,
        inspector_owner,
        Address::new(4, 0, 0, 0),
        String::from("check"),
        0,
        0,
        1,
        String::from("PASSED"),
        "n".repeat(513),
        1,
        9,
    );
    assert_eq!(long_notes.unwrap_err(), SupplyChainErrors::InvalidNotes);
    assert!(!product.quality_checked);

    let mut unrelated_factory = factory.clone();
    unrelated_factory.factory_id = 9;
    let wrong_factory = inspect_product_instruction(
        &mut inspector_user,
        &mut product,
        &unrelated_factory,
        inspector_owner,
        Address::new(4, 0, 0, 0),
        String::from("check"),
        0,
        0,
        1,
        String::from("PASSED"),
        String::from("clean"),
        1,
        9,
    );
    assert_eq!(wrong_factory.unwrap_err(), SupplyChainErrors::InvalidFactory);
    assert_eq!(inspector_user.inspector_count, 0);
}
