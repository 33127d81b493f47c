use crate::address::Address;
use crate::errors::SupplyChainErrors;
use crate::settlement::{
    settle_withdrawal, spec_platform_fee, spec_withdraw_outcome, transfer_units,
    WithdrawalReceipt,
};
use crate::states::{Factory, Product, ProductInspector, ProgramState, Role, Transaction, User};
use vstd::prelude::*;
use vstd::string::StrSliceExecFns;

verus! {

/// Whether a FACTORY-role identity with this record may create a factory
/// with these field lengths.
pub open spec fn spec_create_factory_ok(
    u: User,
    name: Seq<char>,
    description: Seq<char>,
    contact_info: Seq<char>,
) -> bool {
    &&& u.role == Role::Factory
    &&& name.len() <= 32
    &&& description.len() <= 512
    &&& contact_info.len() <= 512
    &&& u.factory_count < u64::MAX
}

/// The first violated factory-creation check, in the order checked.
pub open spec fn spec_create_factory_err(
    u: User,
    name: Seq<char>,
    description: Seq<char>,
    contact_info: Seq<char>,
) -> SupplyChainErrors {
    if u.role != Role::Factory {
        SupplyChainErrors::UnauthorizedAccess
    } else if name.len() > 32 {
        SupplyChainErrors::InvalidName
    } else if description.len() > 512 {
        SupplyChainErrors::InvalidDescription
    } else if contact_info.len() > 512 {
        SupplyChainErrors::InvalidContactInfo
    } else {
        SupplyChainErrors::Overflow
    }
}

/// Creates a factory for a FACTORY-role identity.  The new factory takes
/// the next sequence id under this identity — its factory counter plus one
/// — and the counter moves up with it, so repeated creations yield
/// strictly increasing, gapless ids starting at one.
pub fn create_factory(
    user: &mut User,
    owner: Address,
    name: String,
    description: String,
    latitude: i64,
    longitude: i64,
    contact_info: String,
    now: u64,
) -> (r: Result<Factory, SupplyChainErrors>)
    ensures
        r is Ok <==> spec_create_factory_ok(*old(user), name@, description@, contact_info@),
        r matches Ok(f) ==> {
            &&& f == (Factory {
                factory_id: (old(user).factory_count + 1) as u64,
                name,
                description,
                owner,
                created_at: now,
                latitude,
                longitude,
                contact_info,
                product_count: 0,
                balance: 0,
            })
            &&& *final(user) == (User {
                factory_count: (old(user).factory_count + 1) as u64,
                ..*old(user)
            })
        },
        r matches Err(e) ==> *final(user) == *old(user) && e == spec_create_factory_err(
            *old(user),
            name@,
            description@,
            contact_info@,
        ),
{
    if !(user.role == Role::Factory) {
        return Err(SupplyChainErrors::UnauthorizedAccess);
    }
    if name.as_str().unicode_len() > 32 {
        return Err(SupplyChainErrors::InvalidName);
    }
    if description.as_str().unicode_len() > 512 {
        return Err(SupplyChainErrors::InvalidDescription);
    }
    if contact_info.as_str().unicode_len() > 512 {
        return Err(SupplyChainErrors::InvalidContactInfo);
    }
    let factory_id = match user.factory_count.checked_add(1) {
        Some(id) => id,
        None => {
            return Err(SupplyChainErrors::Overflow);
        },
    };
    user.factory_count = factory_id;
    Ok(
        Factory {
            factory_id,
            name,
            description,
            owner,
            created_at: now,
            latitude,
            longitude,
            contact_info,
            product_count: 0,
            balance: 0,
        },
    )
}

/// Creates a product under a factory.  The product takes the factory's next
/// product sequence id, starts unchecked for quality with no inspection
/// linked, and carries the stock, prices and raw-material figures it was
/// created with.
pub fn create_product(
    factory: &mut Factory,
    factory_address: Address,
    product_name: String,
    product_description: String,
    product_image: String,
    batch_number: String,
    product_price: u64,
    raw_material_used: u64,
    product_stock: u64,
    mrp: u64,
    now: u64,
) -> (r: Result<Product, SupplyChainErrors>)
    ensures
        r is Ok <==> old(factory).product_count < u64::MAX,
        r matches Ok(p) ==> {
            &&& p == (Product {
                product_id: (old(factory).product_count + 1) as u64,
                product_name,
                product_description,
                batch_number,
                product_image,
                factory_id: old(factory).factory_id,
                factory_pda: factory_address,
                product_price,
                product_stock,
                raw_material_used,
                quality_checked: false,
                inspection_id: 0,
                inspector_pda: (Address { w0: 0, w1: 0, w2: 0, w3: 0 }),
                inspection_fee_paid: false,
                mrp,
                created_at: now,
            })
            &&& *final(factory) == (Factory {
                product_count: (old(factory).product_count + 1) as u64,
                ..*old(factory)
            })
        },
        r matches Err(e) ==> *final(factory) == *old(factory) && e == SupplyChainErrors::Overflow,
{
    let product_id = match factory.product_count.checked_add(1) {
        Some(id) => id,
        None => {
            return Err(SupplyChainErrors::Overflow);
        },
    };
    factory.product_count = product_id;
    Ok(
        Product {
            product_id,
            product_name,
            product_description,
            batch_number,
            product_image,
            factory_id: factory.factory_id,
            factory_pda: factory_address,
            product_price,
            product_stock,
            raw_material_used,
            quality_checked: false,
            inspection_id: 0,
            inspector_pda: Address::new(0, 0, 0, 0),
            inspection_fee_paid: false,
            mrp,
            created_at: now,
        },
    )
}

/// Whether this inspection is accepted: an INSPECTOR-role caller, matching
/// factory and product links, bounded fields, a product not yet quality
/// checked, and room in the inspection counter.
pub open spec fn spec_inspect_product_ok(
    u: User,
    p: Product,
    f: Factory,
    product_id: u64,
    name: Seq<char>,
    inspection_outcome: Seq<char>,
    notes: Seq<char>,
) -> bool {
    &&& u.role == Role::Inspector
    &&& f.factory_id == p.factory_id
    &&& product_id == p.product_id
    &&& name.len() <= 32
    &&& !p.quality_checked
    &&& inspection_outcome.len() <= 120
    &&& notes.len() <= 512
    &&& u.inspector_count < u64::MAX
}

/// The first violated inspection check, in the order checked.  A product
/// already quality checked is reported as `QualityChecked`: the flag is
/// one-way and a second inspection is refused.
pub open spec fn spec_inspect_product_err(
    u: User,
    p: Product,
    f: Factory,
    product_id: u64,
    name: Seq<char>,
    inspection_outcome: Seq<char>,
    notes: Seq<char>,
) -> SupplyChainErrors {
    if u.role != Role::Inspector {
        SupplyChainErrors::UnauthorizedAccess
    } else if f.factory_id != p.factory_id {
        SupplyChainErrors::InvalidFactory
    } else if product_id != p.product_id {
        SupplyChainErrors::InvalidProductId
    } else if name.len() > 32 {
        SupplyChainErrors::InvalidName
    } else if p.quality_checked {
        SupplyChainErrors::QualityChecked
    } else if inspection_outcome.len() > 120 {
        SupplyChainErrors::InvalidInspectionOutcome
    } else if notes.len() > 512 {
        SupplyChainErrors::InvalidNotes
    } else {
        SupplyChainErrors::Overflow
    }
}

/// Quality-certifies a product.  The inspection record takes the caller
/// identity's next inspection sequence id; the product is linked to it and
/// its quality flag moves to true — permanently, since a second inspection
/// of the same product fails with `QualityChecked`.
pub fn inspect_product_instruction(
    user: &mut User,
    product: &mut Product,
    factory: &Factory,
    owner: Address,
    inspector_address: Address,
    name: String,
    latitude: i64,
    longitude: i64,
    product_id: u64,
    inspection_outcome: String,
    notes: String,
    fee_charge_per_product: u64,
    now: u64,
) -> (r: Result<ProductInspector, SupplyChainErrors>)
    ensures
        r is Ok <==> spec_inspect_product_ok(
            *old(user), *old(product), *factory, product_id,
            name@, inspection_outcome@, notes@,
        ),
        r matches Ok(ins) ==> {
            &&& ins == (ProductInspector {
                inspector_id: (old(user).inspector_count + 1) as u64,
                name,
                latitude,
                longitude,
                product_id,
                inspection_outcome,
                notes,
                inspection_date: now,
                fee_charge_per_product,
                balance: 0,
                owner,
            })
            &&& *final(user) == (User {
                inspector_count: (old(user).inspector_count + 1) as u64,
                ..*old(user)
            })
            &&& *final(product) == (Product {
                inspection_id: (old(user).inspector_count + 1) as u64,
                quality_checked: true,
                inspector_pda: inspector_address,
                ..*old(product)
            })
        },
        r matches Err(e) ==> {
            &&& *final(user) == *old(user)
            &&& *final(product) == *old(product)
            &&& e == spec_inspect_product_err(
                *old(user), *old(product), *factory, product_id,
                name@, inspection_outcome@, notes@,
            )
        },
{
    if !(user.role == Role::Inspector) {
        return Err(SupplyChainErrors::UnauthorizedAccess);
    }
    if factory.factory_id != product.factory_id {
        return Err(SupplyChainErrors::InvalidFactory);
    }
    if product_id != product.product_id {
        return Err(SupplyChainErrors::InvalidProductId);
    }
    if name.as_str().unicode_len() > 32 {
        return Err(SupplyChainErrors::InvalidName);
    }
    if product.quality_checked {
        return Err(SupplyChainErrors::QualityChecked);
    }
    if inspection_outcome.as_str().unicode_len() > 120 {
        return Err(SupplyChainErrors::InvalidInspectionOutcome);
    }
    if notes.as_str().unicode_len() > 512 {
        return Err(SupplyChainErrors::InvalidNotes);
    }
    let inspector_id = match user.inspector_count.checked_add(1) {
        Some(id) => id,
        None => {
            return Err(SupplyChainErrors::Overflow);
        },
    };
    user.inspector_count = inspector_id;
    product.inspection_id = inspector_id;
    product.quality_checked = true;
    product.inspector_pda = inspector_address;
    Ok(
        ProductInspector {
            inspector_id,
            name,
            latitude,
            longitude,
            product_id,
            inspection_outcome,
            notes,
            inspection_date: now,
            fee_charge_per_product,
            balance: 0,
            owner,
        },
    )
}

/// The inspection fee a factory owes: the inspector's per-unit fee times
/// the product's stock.
pub open spec fn spec_inspection_fee(ins: ProductInspector, p: Product) -> int {
    ins.fee_charge_per_product * p.product_stock
}

/// Whether paying the inspector is accepted: a FACTORY-role caller, links
/// that match, a quality-checked product, and room everywhere the fee and
/// the transaction counter land.
pub open spec fn spec_pay_inspector_ok(
    u: User,
    ins: ProductInspector,
    p: Product,
    payer_units: u64,
    inspector_units: u64,
    inspector_id: u64,
    product_id: u64,
) -> bool {
    &&& u.role == Role::Factory
    &&& p.product_id == product_id
    &&& p.inspection_id == inspector_id
    &&& p.quality_checked
    &&& spec_inspection_fee(ins, p) <= u64::MAX
    &&& payer_units >= spec_inspection_fee(ins, p)
    &&& inspector_units + spec_inspection_fee(ins, p) <= u64::MAX
    &&& ins.balance + spec_inspection_fee(ins, p) <= u64::MAX
    &&& u.transaction_count < u64::MAX
}

/// The first violated inspector-payment check, in the order checked.
pub open spec fn spec_pay_inspector_err(
    u: User,
    ins: ProductInspector,
    p: Product,
    payer_units: u64,
    inspector_units: u64,
    inspector_id: u64,
    product_id: u64,
) -> SupplyChainErrors {
    if u.role != Role::Factory {
        SupplyChainErrors::UnauthorizedAccess
    } else if p.product_id != product_id {
        SupplyChainErrors::InvalidProductId
    } else if p.inspection_id != inspector_id {
        SupplyChainErrors::InvalidInspectorId
    } else if !p.quality_checked {
        SupplyChainErrors::ProductNotQualityChecked
    } else if spec_inspection_fee(ins, p) > u64::MAX {
        SupplyChainErrors::Overflow
    } else if payer_units < spec_inspection_fee(ins, p) {
        SupplyChainErrors::InsufficientBalance
    } else {
        SupplyChainErrors::Overflow
    }
}

/// What a successful inspector payment commits: the moved amount, the payer
/// and inspector account balances after the transfer, and the appended
/// transaction record.
#[derive(Clone, Debug)]
pub struct InspectionPayment {
    pub amount: u64,
    pub new_payer_units: u64,
    pub new_inspector_units: u64,
    pub transaction: Transaction,
}

/// Pays the inspection fee for a quality-checked product: the per-unit fee
/// times the product's stock moves from the factory's payer to the
/// inspector, the inspector's ledger balance grows by the same amount, a
/// transaction is appended, and the product's fee-paid flag moves to true
/// — permanently.
pub fn pay_product_inspector_instruction(
    user: &mut User,
    inspector: &mut ProductInspector,
    product: &mut Product,
    payer: Address,
    inspector_address: Address,
    payer_units: u64,
    inspector_units: u64,
    inspector_id: u64,
    product_id: u64,
    now: u64,
) -> (r: Result<InspectionPayment, SupplyChainErrors>)
    ensures
        r is Ok <==> spec_pay_inspector_ok(
            *old(user), *old(inspector), *old(product),
            payer_units, inspector_units, inspector_id, product_id,
        ),
        r matches Ok(pay) ==> {
            &&& pay.amount == spec_inspection_fee(*old(inspector), *old(product))
            &&& pay.new_payer_units == payer_units - pay.amount
            &&& pay.new_inspector_units == inspector_units + pay.amount
            &&& pay.transaction == (Transaction {
                transaction_id: (old(user).transaction_count + 1) as u64,
                from: payer,
                to: inspector_address,
                amount: pay.amount,
                timestamp: now,
                status: true,
            })
            &&& *final(inspector) == (ProductInspector {
                balance: (old(inspector).balance + pay.amount) as u64,
                ..*old(inspector)
            })
            &&& *final(product) == (Product { inspection_fee_paid: true, ..*old(product) })
            &&& *final(user) == (User {
                transaction_count: (old(user).transaction_count + 1) as u64,
                ..*old(user)
            })
        },
        r matches Err(e) ==> {
            &&& *final(user) == *old(user)
            &&& *final(inspector) == *old(inspector)
            &&& *final(product) == *old(product)
            &&& e == spec_pay_inspector_err(
                *old(user), *old(inspector), *old(product),
                payer_units, inspector_units, inspector_id, product_id,
            )
        },
{
    if !(user.role == Role::Factory) {
        return Err(SupplyChainErrors::UnauthorizedAccess);
    }
    if product.product_id != product_id {
        return Err(SupplyChainErrors::InvalidProductId);
    }
    if product.inspection_id != inspector_id {
        return Err(SupplyChainErrors::InvalidInspectorId);
    }
    if !product.quality_checked {
        return Err(SupplyChainErrors::ProductNotQualityChecked);
    }
    let amount = match inspector.fee_charge_per_product.checked_mul(product.product_stock) {
        Some(total) => total,
        None => {
            return Err(SupplyChainErrors::Overflow);
        },
    };
    let (new_payer_units, new_inspector_units) = match transfer_units(
        payer_units,
        inspector_units,
        amount,
    ) {
        Ok(units) => units,
        Err(e) => {
            return Err(e);
        },
    };
    let new_inspector_balance = match inspector.balance.checked_add(amount) {
        Some(balance) => balance,
        None => {
            return Err(SupplyChainErrors::Overflow);
        },
    };
    let transaction_id = match user.transaction_count.checked_add(1) {
        Some(id) => id,
        None => {
            return Err(SupplyChainErrors::Overflow);
        },
    };
    inspector.balance = new_inspector_balance;
    user.transaction_count = transaction_id;
    product.inspection_fee_paid = true;
    Ok(
        InspectionPayment {
            amount,
            new_payer_units,
            new_inspector_units,
            transaction: Transaction {
                transaction_id,
                from: payer,
                to: inspector_address,
                amount,
                timestamp: now,
                status: true,
            },
        },
    )
}

/// Withdraws from a factory's ledger balance through the settlement
/// engine.  The caller must own the factory under a FACTORY-role identity;
/// the amount leaves the factory's balance in full while the caller
/// receives the net amount and the platform its fee.
pub fn withdraw_balance_as_factory(
    factory: &mut Factory,
    user: &mut User,
    config: &ProgramState,
    caller: Address,
    platform_address: Address,
    factory_address: Address,
    source_units: u64,
    reserve: u64,
    caller_units: u64,
    platform_units: u64,
    amount: u64,
    now: u64,
) -> (r: Result<WithdrawalReceipt, SupplyChainErrors>)
    ensures
        ({
            let outcome = spec_withdraw_outcome(
                old(user).role == Role::Factory && old(factory).owner == caller,
                *config, platform_address, old(factory).balance, source_units,
                reserve, caller_units, platform_units, amount,
                old(user).transaction_count,
            );
            &&& (r is Ok <==> outcome is Ok)
            &&& (r matches Err(e) ==> outcome == Err::<(), SupplyChainErrors>(e))
        }),
        r matches Ok(w) ==> {
            &&& w.settlement.platform_fee == spec_platform_fee(amount, config.platform_fee)
            &&& w.settlement.net + w.settlement.platform_fee == amount
            &&& w.settlement.new_source_units == source_units - amount
            &&& w.settlement.new_caller_units == caller_units + w.settlement.net
            &&& w.settlement.new_platform_units == platform_units + w.settlement.platform_fee
            &&& *final(factory) == (Factory {
                balance: (old(factory).balance - amount) as u64,
                ..*old(factory)
            })
            &&& *final(user) == (User {
                transaction_count: (old(user).transaction_count + 1) as u64,
                ..*old(user)
            })
            &&& w.transaction == (Transaction {
                transaction_id: (old(user).transaction_count + 1) as u64,
                from: factory_address,
                to: caller,
                amount,
                timestamp: now,
                status: true,
            })
        },
        r is Err ==> *final(factory) == *old(factory) && *final(user) == *old(user),
{
    if !(user.role == Role::Factory && factory.owner == caller) {
        return Err(SupplyChainErrors::UnauthorizedAccess);
    }
    let settlement = match settle_withdrawal(
        config,
        platform_address,
        factory.balance,
        source_units,
        reserve,
        caller_units,
        platform_units,
        amount,
    ) {
        Ok(s) => s,
        Err(e) => {
            return Err(e);
        },
    };
    let transaction_id = match user.transaction_count.checked_add(1) {
        Some(id) => id,
        None => {
            return Err(SupplyChainErrors::Overflow);
        },
    };
    factory.balance = settlement.new_balance;
    user.transaction_count = transaction_id;
    let transaction = Transaction {
        transaction_id,
        from: factory_address,
        to: caller,
        amount,
        timestamp: now,
        status: true,
    };
    Ok(WithdrawalReceipt { settlement, transaction })
}

/// Withdraws from an inspector's ledger balance through the settlement
/// engine.  The caller must own the inspection record under an
/// INSPECTOR-role identity.
pub fn withdraw_inspector_balance(
    inspector: &mut ProductInspector,
    user: &mut User,
    config: &ProgramState,
    caller: Address,
    platform_address: Address,
    inspector_address: Address,
    source_units: u64,
    reserve: u64,
    caller_units: u64,
    platform_units: u64,
    amount: u64,
    now: u64,
) -> (r: Result<WithdrawalReceipt, SupplyChainErrors>)
    ensures
        ({
            let outcome = spec_withdraw_outcome(
                old(user).role == Role::Inspector && old(inspector).owner == caller,
                *config, platform_address, old(inspector).balance, source_units,
                reserve, caller_units, platform_units, amount,
                old(user).transaction_count,
            );
            &&& (r is Ok <==> outcome is Ok)
            &&& (r matches Err(e) ==> outcome == Err::<(), SupplyChainErrors>(e))
        }),
        r matches Ok(w) ==> {
            &&& w.settlement.platform_fee == spec_platform_fee(amount, config.platform_fee)
            &&& w.settlement.net + w.settlement.platform_fee == amount
            &&& w.settlement.new_source_units == source_units - amount
            &&& w.settlement.new_caller_units == caller_units + w.settlement.net
            &&& w.settlement.new_platform_units == platform_units + w.settlement.platform_fee
            &&& *final(inspector) == (ProductInspector {
                balance: (old(inspector).balance - amount) as u64,
                ..*old(inspector)
            })
            &&& *final(user) == (User {
                transaction_count: (old(user).transaction_count + 1) as u64,
                ..*old(user)
            })
            &&& w.transaction == (Transaction {
                transaction_id: (old(user).transaction_count + 1) as u64,
                from: inspector_address,
                to: caller,
                amount,
                timestamp: now,
                status: true,
            })
        },
        r is Err ==> *final(inspector) == *old(inspector) && *final(user) == *old(user),
{
    if !(user.role == Role::Inspector && inspector.owner == caller) {
        return Err(SupplyChainErrors::UnauthorizedAccess);
    }
    let settlement = match settle_withdrawal(
        config,
        platform_address,
        inspector.balance,
        source_units,
        reserve,
        caller_units,
        platform_units,
        amount,
    ) {
        Ok(s) => s,
        Err(e) => {
            return Err(e);
        },
    };
    let transaction_id = match user.transaction_count.checked_add(1) {
        Some(id) => id,
        None => {
            return Err(SupplyChainErrors::Overflow);
        },
    };
    inspector.balance = settlement.new_balance;
    user.transaction_count = transaction_id;
    let transaction = Transaction {
        transaction_id,
        from: inspector_address,
        to: caller,
        amount,
        timestamp: now,
        status: true,
    };
    Ok(WithdrawalReceipt { settlement, transaction })
}

} // verus!
