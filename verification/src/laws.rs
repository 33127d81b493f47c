use crate::address::Address;
use crate::errors::SupplyChainErrors;
use crate::production::{spec_inspect_product_err, spec_inspect_product_ok};
use crate::settlement::{
    spec_net_amount, spec_platform_fee, spec_settle_outcome, Settlement, MINIMUM_WITHDRAWAL,
};
use crate::states::{
    CustomerProduct, Factory, Logistics, Product, ProgramState, Role, SellerProductStock,
    ShipmentStatus, User, Warehouse,
};
use vstd::prelude::*;

verus! {

/// Law: the platform fee of a withdrawal is exactly
/// `floor(amount * fee_percent / 100)`, and for every fee percentage up to
/// five and every amount whose scaling stays in the numeric domain, the
/// fee never exceeds the amount — so the beneficiary's net share never
/// underflows.
pub proof fn lemma_fee_bound(amount: u64, fee_percent: u64)
    requires
        fee_percent <= 5,
        amount * fee_percent <= u64::MAX,
    ensures
        spec_platform_fee(amount, fee_percent) == (amount * fee_percent) / 100,
        0 <= spec_platform_fee(amount, fee_percent) <= amount,
        spec_net_amount(amount, fee_percent) + spec_platform_fee(amount, fee_percent) == amount,
{
    assert((amount * fee_percent) / 100 <= amount) by (nonlinear_arith)
        requires
            fee_percent <= 5,
    ;
}

/// Law: settlement conserves value exactly.  Whenever the settlement
/// decision accepts a withdrawal, the net amount and the platform fee sum
/// to the withdrawn amount — nothing is created or lost in the split.
pub proof fn lemma_settlement_splits_exactly(
    config: ProgramState,
    platform_address: Address,
    balance: u64,
    source_units: u64,
    reserve: u64,
    caller_units: u64,
    platform_units: u64,
    amount: u64,
)
    requires
        spec_settle_outcome(
            config, platform_address, balance, source_units, reserve,
            caller_units, platform_units, amount,
        ) is Ok,
    ensures
        spec_net_amount(amount, config.platform_fee) + spec_platform_fee(
            amount,
            config.platform_fee,
        ) == amount,
        0 <= spec_platform_fee(amount, config.platform_fee) <= amount,
{
}

/// Law: a committed settlement moves every unit it touches exactly once.
/// The source's ledger balance and account both drop by the full amount,
/// and the caller and the platform together receive exactly that amount.
pub proof fn lemma_settlement_conserves_units(
    s: Settlement,
    balance: u64,
    source_units: u64,
    caller_units: u64,
    platform_units: u64,
    amount: u64,
)
    requires
        s.net + s.platform_fee == amount,
        s.new_balance == balance - amount,
        s.new_source_units == source_units - amount,
        s.new_caller_units == caller_units + s.net,
        s.new_platform_units == platform_units + s.platform_fee,
    ensures
        balance - s.new_balance == amount,
        source_units - s.new_source_units == amount,
        s.new_caller_units + s.new_platform_units == caller_units + platform_units + amount,
{
}

/// Law: the reserve floor is sharp.  Once a withdrawal has passed the
/// floor and ledger checks, leaving the source account's usable balance
/// below the reserve fails with `InsufficientBalance`, while leaving it at
/// the reserve exactly — with the remaining checks satisfied — succeeds.
pub proof fn lemma_reserve_floor(
    config: ProgramState,
    platform_address: Address,
    balance: u64,
    source_units: u64,
    reserve: u64,
    caller_units: u64,
    platform_units: u64,
    amount: u64,
)
    requires
        amount >= MINIMUM_WITHDRAWAL,
        balance >= amount,
    ensures
        source_units < reserve + amount ==> spec_settle_outcome(
            config, platform_address, balance, source_units, reserve,
            caller_units, platform_units, amount,
        ) == Err::<(), SupplyChainErrors>(SupplyChainErrors::InsufficientBalance),
        (source_units == reserve + amount && amount * config.platform_fee <= u64::MAX
            && spec_platform_fee(amount, config.platform_fee) <= amount
            && platform_address == config.owner
            && caller_units + spec_net_amount(amount, config.platform_fee) <= u64::MAX
            && platform_units + spec_platform_fee(amount, config.platform_fee) <= u64::MAX)
            ==> spec_settle_outcome(
            config, platform_address, balance, source_units, reserve,
            caller_units, platform_units, amount,
        ) is Ok,
{
}

/// Law: a withdrawal below the minimum threshold is refused as below the
/// floor, whatever the balances look like.
pub proof fn lemma_minimum_withdrawal_floor(
    config: ProgramState,
    platform_address: Address,
    balance: u64,
    source_units: u64,
    reserve: u64,
    caller_units: u64,
    platform_units: u64,
    amount: u64,
)
    requires
        amount < MINIMUM_WITHDRAWAL,
    ensures
        spec_settle_outcome(
            config, platform_address, balance, source_units, reserve,
            caller_units, platform_units, amount,
        ) == Err::<(), SupplyChainErrors>(SupplyChainErrors::InsifficentWithdraw),
{
}

/// Law: sequence ids are monotonic and gapless.  Two factories created in
/// turn under the same identity take consecutive ids, and the first
/// creation under a fresh identity takes id one.  The hypotheses are
/// exactly what `create_factory` guarantees of each step.
pub proof fn lemma_factory_ids_monotonic(u0: User, u1: User, u2: User, f1: Factory, f2: Factory)
    requires
        u0.factory_count < u64::MAX,
        f1.factory_id == u0.factory_count + 1,
        u1 == (User { factory_count: (u0.factory_count + 1) as u64, ..u0 }),
        u1.factory_count < u64::MAX,
        f2.factory_id == u1.factory_count + 1,
        u2 == (User { factory_count: (u1.factory_count + 1) as u64, ..u1 }),
    ensures
        f2.factory_id == f1.factory_id + 1,
        f1.factory_id >= 1,
        u0.factory_count == 0 ==> f1.factory_id == 1,
{
}

/// Law: product sequence ids under one factory are monotonic and gapless,
/// by the same argument as factory ids under one identity.  The
/// hypotheses are exactly what `create_product` guarantees of each step.
pub proof fn lemma_product_ids_monotonic(
    f0: Factory,
    f1: Factory,
    f2: Factory,
    p1: Product,
    p2: Product,
)
    requires
        f0.product_count < u64::MAX,
        p1.product_id == f0.product_count + 1,
        f1 == (Factory { product_count: (f0.product_count + 1) as u64, ..f0 }),
        f1.product_count < u64::MAX,
        p2.product_id == f1.product_count + 1,
        f2 == (Factory { product_count: (f1.product_count + 1) as u64, ..f1 }),
    ensures
        p2.product_id == p1.product_id + 1,
        p1.product_id >= 1,
        f0.product_count == 0 ==> p1.product_id == 1,
{
}

/// Law: the quality flag is one-way under inspection.  The transition an
/// accepted inspection commits on the product only raises the flags, and
/// a product already checked can never satisfy the inspection's
/// acceptance condition again — it is refused as `QualityChecked` once
/// the caller and the links are in order.
pub proof fn lemma_quality_flag_one_way(
    u: User,
    p: Product,
    f: Factory,
    product_id: u64,
    name: Seq<char>,
    inspection_outcome: Seq<char>,
    notes: Seq<char>,
)
    ensures
        p.quality_checked ==> !spec_inspect_product_ok(
            u, p, f, product_id, name, inspection_outcome, notes,
        ),
        (p.quality_checked && u.role == Role::Inspector && f.factory_id == p.factory_id
            && product_id == p.product_id && name.len() <= 32) ==> spec_inspect_product_err(
            u, p, f, product_id, name, inspection_outcome, notes,
        ) == SupplyChainErrors::QualityChecked,
{
}

/// Law: the flags survive every product transition.  For each of the
/// three operations that write a product — inspection, inspector payment
/// and wholesale purchase — the committed transition never lowers
/// `quality_checked` or `inspection_fee_paid`.  Each hypothesis is the
/// product relation the operation's contract guarantees.
pub proof fn lemma_flags_monotonic(
    p: Product,
    after_inspection: Product,
    after_payment: Product,
    after_purchase: Product,
    inspection_id: u64,
    inspector_address: Address,
    quantity: u64,
)
    requires
        p.product_stock >= quantity,
        after_inspection == (Product {
            inspection_id,
            quality_checked: true,
            inspector_pda: inspector_address,
            ..p
        }),
        after_payment == (Product { inspection_fee_paid: true, ..p }),
        after_purchase == (Product {
            product_stock: (p.product_stock - quantity) as u64,
            ..p
        }),
    ensures
        p.quality_checked ==> after_inspection.quality_checked,
        p.inspection_fee_paid ==> after_inspection.inspection_fee_paid,
        p.quality_checked ==> after_payment.quality_checked,
        p.inspection_fee_paid ==> after_payment.inspection_fee_paid,
        p.quality_checked ==> after_purchase.quality_checked,
        p.inspection_fee_paid ==> after_purchase.inspection_fee_paid,
{
}

/// Law: a wholesale purchase conserves stock.  The quantity that leaves
/// the product's stock is exactly the quantity credited to the
/// warehouse's product count, and nothing else moves: the combined stock
/// is unchanged.  The hypotheses are the transition `buy_product_as_warehouse`
/// commits.
pub proof fn lemma_wholesale_purchase_conserves_stock(
    p_old: Product,
    p_new: Product,
    w_old: Warehouse,
    w_new: Warehouse,
    quantity: u64,
)
    requires
        p_old.product_stock >= quantity,
        w_old.product_count + quantity <= u64::MAX,
        p_new == (Product {
            product_stock: (p_old.product_stock - quantity) as u64,
            ..p_old
        }),
        w_new == (Warehouse {
            product_count: (w_old.product_count + quantity) as u64,
            product_id: p_old.product_id,
            ..w_old
        }),
    ensures
        p_old.product_stock - p_new.product_stock == quantity,
        w_new.product_count - w_old.product_count == quantity,
        p_old.product_stock + w_old.product_count == p_new.product_stock + w_new.product_count,
{
}

/// Law: a shipment dispatch conserves stock.  The order's quantity leaves
/// the warehouse's product count and is loaded, whole, onto the shipment
/// that started with none of it in transit.  The hypotheses are the
/// transition `send_logistics_to_seller_instruction` commits.
pub proof fn lemma_dispatch_conserves_stock(
    w_old: Warehouse,
    w_new: Warehouse,
    l_old: Logistics,
    l_new: Logistics,
    order_stock: u64,
    shipping_cost: u64,
    now: u64,
)
    requires
        w_old.product_count >= order_stock,
        w_old.logistic_count < u64::MAX,
        l_old.balance + shipping_cost <= u64::MAX,
        w_new == (Warehouse {
            logistic_count: (w_old.logistic_count + 1) as u64,
            product_count: (w_old.product_count - order_stock) as u64,
            ..w_old
        }),
        l_new == (Logistics {
            shipment_started_at: now,
            product_stock: order_stock,
            status: ShipmentStatus::OnTheWay,
            balance: (l_old.balance + shipping_cost) as u64,
            ..l_old
        }),
    ensures
        w_old.product_count - w_new.product_count == l_new.product_stock,
{
}

/// Law: a customer purchase conserves stock.  The quantity that leaves
/// the seller's stock record is exactly the quantity added to the
/// customer's holding: the combined quantity is unchanged.  The
/// hypotheses are the transition `buy_product_as_customer_ctx` commits.
pub proof fn lemma_retail_purchase_conserves_stock(
    sp_old: SellerProductStock,
    sp_new: SellerProductStock,
    held_old: CustomerProduct,
    held_new: CustomerProduct,
    quantity: u64,
)
    requires
        sp_old.stock_quantity >= quantity,
        held_old.stock_quantity + quantity <= u64::MAX,
        sp_new == (SellerProductStock {
            stock_quantity: (sp_old.stock_quantity - quantity) as u64,
            ..sp_old
        }),
        held_new.stock_quantity == held_old.stock_quantity + quantity,
    ensures
        sp_old.stock_quantity - sp_new.stock_quantity == quantity,
        held_new.stock_quantity - held_old.stock_quantity == quantity,
        sp_old.stock_quantity + held_old.stock_quantity == sp_new.stock_quantity
            + held_new.stock_quantity,
{
}

/// Law: an inter-party purchase conserves currency.  Whatever the payer's
/// account loses, the recipient's account and ledger balance gain — the
/// sum of payer and recipient accounts is unchanged.  The hypotheses are
/// what each purchase contract states of its transfer.
pub proof fn lemma_purchase_conserves_units(
    payer_units: u64,
    recipient_units: u64,
    new_payer_units: u64,
    new_recipient_units: u64,
    ledger_before: u64,
    ledger_after: u64,
    total: u64,
)
    requires
        payer_units >= total,
        recipient_units + total <= u64::MAX,
        ledger_before + total <= u64::MAX,
        new_payer_units == payer_units - total,
        new_recipient_units == recipient_units + total,
        ledger_after == ledger_before + total,
    ensures
        new_payer_units + new_recipient_units == payer_units + recipient_units,
        payer_units - new_payer_units == ledger_after - ledger_before,
{
}

} // verus!
