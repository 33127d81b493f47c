use crate::address::Address;
use crate::errors::SupplyChainErrors;
use crate::settlement::{
    settle_withdrawal, spec_platform_fee, spec_withdraw_outcome, transfer_units,
    WithdrawalReceipt,
};
use crate::states::{
    Logistics, Order, OrderStatus, Product, ProgramState, Role, ShipmentStatus, Transaction, User,
    Warehouse,
};
use vstd::prelude::*;
use vstd::string::StrSliceExecFns;

verus! {

/// Whether a WAREHOUSE-role identity may create a warehouse bound to this
/// factory.
pub open spec fn spec_create_warehouse_ok(u: User, f: crate::states::Factory, factory_id: u64) -> bool {
    &&& u.role == Role::Warehouse
    &&& f.factory_id == factory_id
    &&& u.warehouse_count < u64::MAX
}

/// The first violated warehouse-creation check, in the order checked.
pub open spec fn spec_create_warehouse_err(
    u: User,
    f: crate::states::Factory,
    factory_id: u64,
) -> SupplyChainErrors {
    if u.role != Role::Warehouse {
        SupplyChainErrors::UnauthorizedAccess
    } else if f.factory_id != factory_id {
        SupplyChainErrors::InvalidFactory
    } else {
        SupplyChainErrors::Overflow
    }
}

/// Creates a warehouse bound to a factory for a WAREHOUSE-role identity.
/// The warehouse takes the identity's next warehouse sequence id and starts
/// with an empty balance and no stock, pointed at the product it will
/// trade.
pub fn create_warehouse_instrution(
    user: &mut User,
    factory: &crate::states::Factory,
    product: &Product,
    owner: Address,
    product_address: Address,
    name: String,
    description: String,
    contact_deatails: String,
    factory_id: u64,
    warehouse_size: u64,
    latitude: i64,
    longitude: i64,
    now: u64,
) -> (r: Result<Warehouse, SupplyChainErrors>)
    ensures
        r is Ok <==> spec_create_warehouse_ok(*old(user), *factory, factory_id),
        r matches Ok(w) ==> {
            &&& w == (Warehouse {
                warehouse_id: (old(user).warehouse_count + 1) as u64,
                factory_id,
                created_at: now,
                name,
                description,
                product_id: product.product_id,
                product_pda: product_address,
                product_count: 0,
                latitude,
                longitude,
                balance: 0,
                contact_details: contact_deatails,
                owner,
                warehouse_size,
                logistic_count: 0,
            })
            &&& *final(user) == (User {
                warehouse_count: (old(user).warehouse_count + 1) as u64,
                ..*old(user)
            })
        },
        r matches Err(e) ==> *final(user) == *old(user) && e == spec_create_warehouse_err(
            *old(user),
            *factory,
            factory_id,
        ),
{
    if !(user.role == Role::Warehouse) {
        return Err(SupplyChainErrors::UnauthorizedAccess);
    }
    if factory.factory_id != factory_id {
        return Err(SupplyChainErrors::InvalidFactory);
    }
    let warehouse_id = match user.warehouse_count.checked_add(1) {
        Some(id) => id,
        None => {
            return Err(SupplyChainErrors::Overflow);
        },
    };
    user.warehouse_count = warehouse_id;
    Ok(
        Warehouse {
            warehouse_id,
            factory_id,
            created_at: now,
            name,
            description,
            product_id: product.product_id,
            product_pda: product_address,
            product_count: 0,
            latitude,
            longitude,
            balance: 0,
            contact_details: contact_deatails,
            owner,
            warehouse_size,
            logistic_count: 0,
        },
    )
}

/// The price of a wholesale purchase: the product's unit price times the
/// purchased quantity.
pub open spec fn spec_wholesale_price(p: Product, quantity: u64) -> int {
    p.product_price * quantity
}

/// Whether a warehouse purchase is accepted, in the order checked: role,
/// matching links, enough product stock, a paid inspection fee, price
/// arithmetic in range, warehouse ownership, a payer able to cover the
/// price, and room in every balance and counter the purchase lands in.
pub open spec fn spec_buy_as_warehouse_ok(
    u: User,
    w: Warehouse,
    p: Product,
    f: crate::states::Factory,
    warehouse_owner: Address,
    payer_units: u64,
    factory_units: u64,
    product_id: u64,
    factory_id: u64,
    quantity: u64,
) -> bool {
    &&& u.role == Role::Warehouse
    &&& p.product_id == product_id
    &&& f.factory_id == factory_id
    &&& p.product_stock >= quantity
    &&& p.inspection_fee_paid
    &&& spec_wholesale_price(p, quantity) <= u64::MAX
    &&& w.owner == warehouse_owner
    &&& payer_units >= spec_wholesale_price(p, quantity)
    &&& factory_units + spec_wholesale_price(p, quantity) <= u64::MAX
    &&& w.product_count + quantity <= u64::MAX
    &&& f.balance + spec_wholesale_price(p, quantity) <= u64::MAX
    &&& u.transaction_count < u64::MAX
}

/// The first violated warehouse-purchase check, in the order checked.  A
/// product whose inspection fee is unpaid is refused as `InvalidProductId`:
/// it is not yet purchasable.
pub open spec fn spec_buy_as_warehouse_err(
    u: User,
    w: Warehouse,
    p: Product,
    f: crate::states::Factory,
    warehouse_owner: Address,
    payer_units: u64,
    factory_units: u64,
    product_id: u64,
    factory_id: u64,
    quantity: u64,
) -> SupplyChainErrors {
    if u.role != Role::Warehouse {
        SupplyChainErrors::UnauthorizedAccess
    } else if p.product_id != product_id {
        SupplyChainErrors::InvalidProductId
    } else if f.factory_id != factory_id {
        SupplyChainErrors::InvalidFactory
    } else if p.product_stock < quantity {
        SupplyChainErrors::InsufficientStock
    } else if !p.inspection_fee_paid {
        SupplyChainErrors::InvalidProductId
    } else if spec_wholesale_price(p, quantity) > u64::MAX {
        SupplyChainErrors::Overflow
    } else if w.owner != warehouse_owner {
        SupplyChainErrors::UnauthorizedAccess
    } else if payer_units < spec_wholesale_price(p, quantity) {
        SupplyChainErrors::InsufficientBalance
    } else {
        SupplyChainErrors::Overflow
    }
}

/// What a successful warehouse purchase commits: the paid total, both
/// account balances after the transfer, and the appended transaction.
#[derive(Clone, Debug)]
pub struct WarehousePurchase {
    pub total_price: u64,
    pub new_payer_units: u64,
    pub new_factory_units: u64,
    pub transaction: Transaction,
}

/// A warehouse buys stock wholesale from a factory.  Exactly the purchased
/// quantity leaves the product's stock and lands in the warehouse's product
/// count; the price moves from the warehouse owner's account to the
/// factory, whose ledger balance grows by the same total.
pub fn buy_product_as_warehouse(
    user: &mut User,
    warehouse: &mut Warehouse,
    product: &mut Product,
    factory: &mut crate::states::Factory,
    warehouse_owner: Address,
    factory_address: Address,
    payer_units: u64,
    factory_units: u64,
    product_id: u64,
    factory_id: u64,
    stock_to_purchase: u64,
    now: u64,
) -> (r: Result<WarehousePurchase, SupplyChainErrors>)
    ensures
        r is Ok <==> spec_buy_as_warehouse_ok(
            *old(user), *old(warehouse), *old(product), *old(factory),
            warehouse_owner, payer_units, factory_units,
            product_id, factory_id, stock_to_purchase,
        ),
        r matches Ok(purchase) ==> {
            &&& purchase.total_price == spec_wholesale_price(*old(product), stock_to_purchase)
            &&& purchase.new_payer_units == payer_units - purchase.total_price
            &&& purchase.new_factory_units == factory_units + purchase.total_price
            &&& purchase.transaction == (Transaction {
                transaction_id: (old(user).transaction_count + 1) as u64,
                from: warehouse_owner,
                to: factory_address,
                amount: purchase.total_price,
                timestamp: now,
                status: true,
            })
            &&& *final(warehouse) == (Warehouse {
                product_count: (old(warehouse).product_count + stock_to_purchase) as u64,
                product_id: old(product).product_id,
                ..*old(warehouse)
            })
            &&& *final(product) == (Product {
                product_stock: (old(product).product_stock - stock_to_purchase) as u64,
                ..*old(product)
            })
            &&& *final(factory) == (crate::states::Factory {
                balance: (old(factory).balance + purchase.total_price) as u64,
                ..*old(factory)
            })
            &&& *final(user) == (User {
                transaction_count: (old(user).transaction_count + 1) as u64,
                ..*old(user)
            })
        },
        r matches Err(e) ==> {
            &&& *final(user) == *old(user)
            &&& *final(warehouse) == *old(warehouse)
            &&& *final(product) == *old(product)
            &&& *final(factory) == *old(factory)
            &&& e == spec_buy_as_warehouse_err(
                *old(user), *old(warehouse), *old(product), *old(factory),
                warehouse_owner, payer_units, factory_units,
                product_id, factory_id, stock_to_purchase,
            )
        },
{
    if !(user.role == Role::Warehouse) {
        return Err(SupplyChainErrors::UnauthorizedAccess);
    }
    if product.product_id != product_id {
        return Err(SupplyChainErrors::InvalidProductId);
    }
    if factory.factory_id != factory_id {
        return Err(SupplyChainErrors::InvalidFactory);
    }
    if product.product_stock < stock_to_purchase {
        return Err(SupplyChainErrors::InsufficientStock);
    }
    if !product.inspection_fee_paid {
        return Err(SupplyChainErrors::InvalidProductId);
    }
    let total_price = match product.product_price.checked_mul(stock_to_purchase) {
        Some(total) => total,
        None => {
            return Err(SupplyChainErrors::Overflow);
        },
    };
    if !(warehouse.owner == warehouse_owner) {
        return Err(SupplyChainErrors::UnauthorizedAccess);
    }
    let (new_payer_units, new_factory_units) = match transfer_units(
        payer_units,
        factory_units,
        total_price,
    ) {
        Ok(units) => units,
        Err(e) => {
            return Err(e);
        },
    };
    let new_product_count = match warehouse.product_count.checked_add(stock_to_purchase) {
        Some(count) => count,
        None => {
            return Err(SupplyChainErrors::Overflow);
        },
    };
    let new_factory_balance = match factory.balance.checked_add(total_price) {
        Some(balance) => balance,
        None => {
            return Err(SupplyChainErrors::Overflow);
        },
    };
    let transaction_id = match user.transaction_count.checked_add(1) {
        Some(id) => id,
        None => {
            return Err(SupplyChainErrors::Overflow);
        },
    };
    warehouse.product_count = new_product_count;
    warehouse.product_id = product.product_id;
    product.product_stock = product.product_stock - stock_to_purchase;
    factory.balance = new_factory_balance;
    user.transaction_count = transaction_id;
    Ok(
        WarehousePurchase {
            total_price,
            new_payer_units,
            new_factory_units,
            transaction: Transaction {
                transaction_id,
                from: warehouse_owner,
                to: factory_address,
                amount: total_price,
                timestamp: now,
                status: true,
            },
        },
    )
}

/// Whether a seller's wholesale order is accepted, in the order checked.
pub open spec fn spec_create_order_ok(
    u: User,
    s: crate::states::Seller,
    w: Warehouse,
    p: Product,
    seller_account: Address,
    payer_units: u64,
    warehouse_units: u64,
    warehouse_id: u64,
    product_id: u64,
    quantity: u64,
) -> bool {
    &&& u.role == Role::Seller
    &&& seller_account == u.owner
    &&& w.warehouse_id == warehouse_id
    &&& p.product_id == product_id
    &&& w.product_count >= quantity
    &&& spec_wholesale_price(p, quantity) <= u64::MAX
    &&& payer_units >= spec_wholesale_price(p, quantity)
    &&& warehouse_units + spec_wholesale_price(p, quantity) <= u64::MAX
    &&& w.balance + spec_wholesale_price(p, quantity) <= u64::MAX
    &&& s.order_count < u64::MAX
    &&& u.transaction_count < u64::MAX
}

/// The first violated order check, in the order checked.
pub open spec fn spec_create_order_err(
    u: User,
    s: crate::states::Seller,
    w: Warehouse,
    p: Product,
    seller_account: Address,
    payer_units: u64,
    warehouse_units: u64,
    warehouse_id: u64,
    product_id: u64,
    quantity: u64,
) -> SupplyChainErrors {
    if u.role != Role::Seller {
        SupplyChainErrors::UnauthorizedAccess
    } else if seller_account != u.owner {
        SupplyChainErrors::UnauthorizedAccess
    } else if w.warehouse_id != warehouse_id {
        SupplyChainErrors::InvalidWarehouse
    } else if p.product_id != product_id {
        SupplyChainErrors::InvalidProductId
    } else if w.product_count < quantity {
        SupplyChainErrors::InsufficientStock
    } else if spec_wholesale_price(p, quantity) > u64::MAX {
        SupplyChainErrors::Overflow
    } else if payer_units < spec_wholesale_price(p, quantity) {
        SupplyChainErrors::InsufficientBalance
    } else {
        SupplyChainErrors::Overflow
    }
}

/// What a successfully placed order commits: the new order record, the
/// paid total, both account balances after the transfer, and the appended
/// transaction.
#[derive(Clone, Debug)]
pub struct OrderPlacement {
    pub order: Order,
    pub total_price: u64,
    pub new_payer_units: u64,
    pub new_warehouse_units: u64,
    pub transaction: Transaction,
}

/// A seller orders stock from a warehouse.  The order takes the seller's
/// next order sequence id and starts in the ORDERED status; the wholesale
/// price moves from the seller's account to the warehouse, whose ledger
/// balance grows by the same total.  The warehouse's stock leaves only
/// later, when the shipment is dispatched.
pub fn create_order_instruction_as_seller(
    user: &mut User,
    seller: &mut crate::states::Seller,
    warehouse: &mut Warehouse,
    product: &Product,
    seller_account: Address,
    warehouse_address: Address,
    seller_address: Address,
    product_address: Address,
    payer_units: u64,
    warehouse_units: u64,
    warehouse_id: u64,
    product_id: u64,
    product_stock: u64,
    now: u64,
) -> (r: Result<OrderPlacement, SupplyChainErrors>)
    ensures
        r is Ok <==> spec_create_order_ok(
            *old(user), *old(seller), *old(warehouse), *product,
            seller_account, payer_units, warehouse_units,
            warehouse_id, product_id, product_stock,
        ),
        r matches Ok(placed) ==> {
            &&& placed.total_price == spec_wholesale_price(*product, product_stock)
            &&& placed.new_payer_units == payer_units - placed.total_price
            &&& placed.new_warehouse_units == warehouse_units + placed.total_price
            &&& placed.order == (Order {
                order_id: (old(seller).order_count + 1) as u64,
                product_id,
                product_pda: product_address,
                product_stock,
                warehouse_id,
                warehouse_pda: warehouse_address,
                total_price: placed.total_price,
                timestamp: now,
                seller_id: old(seller).seller_id,
                seller_pda: seller_address,
                logistic_id: 0,
                logistic_pda: (Address { w0: 0, w1: 0, w2: 0, w3: 0 }),
                status: OrderStatus::Ordered,
            })
            &&& placed.transaction == (Transaction {
                transaction_id: (old(user).transaction_count + 1) as u64,
                from: seller_account,
                to: warehouse_address,
                amount: placed.total_price,
                timestamp: now,
                status: true,
            })
            &&& *final(warehouse) == (Warehouse {
                balance: (old(warehouse).balance + placed.total_price) as u64,
                ..*old(warehouse)
            })
            &&& *final(seller) == (crate::states::Seller {
                order_count: (old(seller).order_count + 1) as u64,
                ..*old(seller)
            })
            &&& *final(user) == (User {
                transaction_count: (old(user).transaction_count + 1) as u64,
                ..*old(user)
            })
        },
        r matches Err(e) ==> {
            &&& *final(user) == *old(user)
            &&& *final(seller) == *old(seller)
            &&& *final(warehouse) == *old(warehouse)
            &&& e == spec_create_order_err(
                *old(user), *old(seller), *old(warehouse), *product,
                seller_account, payer_units, warehouse_units,
                warehouse_id, product_id, product_stock,
            )
        },
{
    if !(user.role == Role::Seller) {
        return Err(SupplyChainErrors::UnauthorizedAccess);
    }
    if !(seller_account == user.owner) {
        return Err(SupplyChainErrors::UnauthorizedAccess);
    }
    if warehouse.warehouse_id != warehouse_id {
        return Err(SupplyChainErrors::InvalidWarehouse);
    }
    if product.product_id != product_id {
        return Err(SupplyChainErrors::InvalidProductId);
    }
    if warehouse.product_count < product_stock {
        return Err(SupplyChainErrors::InsufficientStock);
    }
    let total_price = match product.product_price.checked_mul(product_stock) {
        Some(total) => total,
        None => {
            return Err(SupplyChainErrors::Overflow);
        },
    };
    let (new_payer_units, new_warehouse_units) = match transfer_units(
        payer_units,
        warehouse_units,
        total_price,
    ) {
        Ok(units) => units,
        Err(e) => {
            return Err(e);
        },
    };
    let new_warehouse_balance = match warehouse.balance.checked_add(total_price) {
        Some(balance) => balance,
        None => {
            return Err(SupplyChainErrors::Overflow);
        },
    };
    let order_id = match seller.order_count.checked_add(1) {
        Some(id) => id,
        None => {
            return Err(SupplyChainErrors::Overflow);
        },
    };
    let transaction_id = match user.transaction_count.checked_add(1) {
        Some(id) => id,
        None => {
            return Err(SupplyChainErrors::Overflow);
        },
    };
    warehouse.balance = new_warehouse_balance;
    seller.order_count = order_id;
    user.transaction_count = transaction_id;
    Ok(
        OrderPlacement {
            order: Order {
                order_id,
                product_id,
                product_pda: product_address,
                product_stock,
                warehouse_id,
                warehouse_pda: warehouse_address,
                total_price,
                timestamp: now,
                seller_id: seller.seller_id,
                seller_pda: seller_address,
                logistic_id: 0,
                logistic_pda: Address::new(0, 0, 0, 0),
                status: OrderStatus::Ordered,
            },
            total_price,
            new_payer_units,
            new_warehouse_units,
            transaction: Transaction {
                transaction_id,
                from: seller_account,
                to: warehouse_address,
                amount: total_price,
                timestamp: now,
                status: true,
            },
        },
    )
}

/// Whether a logistics record may be created, in the order checked: the
/// caller owns the identity, holds the LOGISTICS role, the fields are
/// within bounds, and the warehouse and product links match.
pub open spec fn spec_create_logistics_ok(
    u: User,
    w: Warehouse,
    p: Product,
    owner: Address,
    name: Seq<char>,
    transportation_mode: Seq<char>,
    contact_info: Seq<char>,
    product_id: u64,
    warehouse_id: u64,
) -> bool {
    &&& u.owner == owner
    &&& u.role == Role::Logistics
    &&& name.len() < 32
    &&& contact_info.len() < 512
    &&& transportation_mode.len() < 32
    &&& warehouse_id == w.warehouse_id
    &&& product_id == p.product_id
    &&& product_id == w.product_id
    &&& u.logistics_count < u64::MAX
}

/// The first violated logistics-creation check, in the order checked.  An
/// overlong transport mode is reported as `InvalidName`, the same kind as
/// an overlong name.
pub open spec fn spec_create_logistics_err(
    u: User,
    w: Warehouse,
    p: Product,
    owner: Address,
    name: Seq<char>,
    transportation_mode: Seq<char>,
    contact_info: Seq<char>,
    product_id: u64,
    warehouse_id: u64,
) -> SupplyChainErrors {
    if u.owner != owner {
        SupplyChainErrors::UnauthorizedAccess
    } else if u.role != Role::Logistics {
        SupplyChainErrors::UnauthorizedAccess
    } else if name.len() >= 32 {
        SupplyChainErrors::InvalidName
    } else if contact_info.len() >= 512 {
        SupplyChainErrors::InvalidContactInfo
    } else if transportation_mode.len() >= 32 {
        SupplyChainErrors::InvalidName
    } else if warehouse_id != w.warehouse_id {
        SupplyChainErrors::InvalidWarehouse
    } else if !(product_id == p.product_id && product_id == w.product_id) {
        SupplyChainErrors::InvalidProductId
    } else {
        SupplyChainErrors::Overflow
    }
}

/// Creates a shipment record for a LOGISTICS-role identity, bound to a
/// warehouse and the product it trades.  The record takes the identity's
/// next logistics sequence id and starts pending, undelivered, with no
/// stock loaded and an empty balance.
pub fn create_logistics_instruction(
    user: &mut User,
    warehouse: &Warehouse,
    product: &Product,
    owner: Address,
    name: String,
    transportation_mode: String,
    contact_info: String,
    product_id: u64,
    warehouse_id: u64,
    latitude: i64,
    longitude: i64,
) -> (r: Result<Logistics, SupplyChainErrors>)
    ensures
        r is Ok <==> spec_create_logistics_ok(
            *old(user), *warehouse, *product, owner,
            name@, transportation_mode@, contact_info@,
            product_id, warehouse_id,
        ),
        r matches Ok(l) ==> {
            &&& l == (Logistics {
                logistic_id: (old(user).logistics_count + 1) as u64,
                name,
                transportation_mode,
                contact_info,
                status: ShipmentStatus::Pending,
                shipment_cost: 0,
                product_id,
                product_pda: 0,
                product_stock: 0,
                delivery_confirmed: false,
                balance: 0,
                warehouse_id,
                shipment_started_at: 0,
                shipment_ended_at: 0,
                delivered: false,
                latitude,
                longitude,
                owner,
            })
            &&& *final(user) == (User {
                logistics_count: (old(user).logistics_count + 1) as u64,
                ..*old(user)
            })
        },
        r matches Err(e) ==> *final(user) == *old(user) && e == spec_create_logistics_err(
            *old(user), *warehouse, *product, owner,
            name@, transportation_mode@, contact_info@,
            product_id, warehouse_id,
        ),
{
    if !(user.owner == owner) {
        return Err(SupplyChainErrors::UnauthorizedAccess);
    }
    if !(user.role == Role::Logistics) {
        return Err(SupplyChainErrors::UnauthorizedAccess);
    }
    if name.as_str().unicode_len() >= 32 {
        return Err(SupplyChainErrors::InvalidName);
    }
    if contact_info.as_str().unicode_len() >= 512 {
        return Err(SupplyChainErrors::InvalidContactInfo);
    }
    if transportation_mode.as_str().unicode_len() >= 32 {
        return Err(SupplyChainErrors::InvalidName);
    }
    if warehouse_id != warehouse.warehouse_id {
        return Err(SupplyChainErrors::InvalidWarehouse);
    }
    if !(product_id == product.product_id && product_id == warehouse.product_id) {
        return Err(SupplyChainErrors::InvalidProductId);
    }
    let logistic_id = match user.logistics_count.checked_add(1) {
        Some(id) => id,
        None => {
            return Err(SupplyChainErrors::Overflow);
        },
    };
    user.logistics_count = logistic_id;
    Ok(
        Logistics {
            logistic_id,
            name,
            transportation_mode,
            contact_info,
            status: ShipmentStatus::Pending,
            shipment_cost: 0,
            product_id,
            product_pda: 0,
            product_stock: 0,
            delivery_confirmed: false,
            balance: 0,
            warehouse_id,
            shipment_started_at: 0,
            shipment_ended_at: 0,
            delivered: false,
            latitude,
            longitude,
            owner,
        },
    )
}

/// Whether a shipment dispatch is accepted, in the order checked: matching
/// product, warehouse and logistics links, a WAREHOUSE-role caller, an
/// order consistent with the warehouse, a payer able to cover the shipping
/// cost, room in the shipment's balances and the warehouse's logistics
/// counter, and enough warehouse stock to load the order.
pub open spec fn spec_send_logistics_ok(
    u: User,
    l: Logistics,
    w: Warehouse,
    o: Order,
    p: Product,
    payer_units: u64,
    logistics_units: u64,
    logistics_id: u64,
    product_id: u64,
    warehouse_id: u64,
    shipping_cost: u64,
) -> bool {
    &&& product_id == p.product_id
    &&& warehouse_id == w.warehouse_id
    &&& logistics_id == l.logistic_id
    &&& u.role == Role::Warehouse
    &&& o.warehouse_id == w.warehouse_id
    &&& o.product_id == w.product_id
    &&& payer_units >= shipping_cost
    &&& logistics_units + shipping_cost <= u64::MAX
    &&& l.balance + shipping_cost <= u64::MAX
    &&& w.logistic_count < u64::MAX
    &&& w.product_count >= o.product_stock
    &&& u.transaction_count < u64::MAX
}

/// The first violated dispatch check, in the order checked.  A warehouse
/// left with less stock than the order moves is an arithmetic underflow on
/// its product count and is reported as `Overflow`.
pub open spec fn spec_send_logistics_err(
    u: User,
    l: Logistics,
    w: Warehouse,
    o: Order,
    p: Product,
    payer_units: u64,
    logistics_units: u64,
    logistics_id: u64,
    product_id: u64,
    warehouse_id: u64,
    shipping_cost: u64,
) -> SupplyChainErrors {
    if product_id != p.product_id {
        SupplyChainErrors::InvalidProductId
    } else if warehouse_id != w.warehouse_id {
        SupplyChainErrors::InvalidWarehouse
    } else if logistics_id != l.logistic_id {
        SupplyChainErrors::InvalidLogistics
    } else if u.role != Role::Warehouse {
        SupplyChainErrors::UnauthorizedAccess
    } else if o.warehouse_id != w.warehouse_id {
        SupplyChainErrors::InvalidWarehouse
    } else if o.product_id != w.product_id {
        SupplyChainErrors::InvalidProductId
    } else if payer_units < shipping_cost {
        SupplyChainErrors::InsufficientBalance
    } else {
        SupplyChainErrors::Overflow
    }
}

/// What a successful dispatch commits: both account balances after the
/// shipping payment and the appended transaction.
#[derive(Clone, Debug)]
pub struct ShipmentDispatch {
    pub new_payer_units: u64,
    pub new_logistics_units: u64,
    pub transaction: Transaction,
}

/// A warehouse hands an order to a shipment.  The order's stock is loaded
/// onto the shipment and leaves the warehouse's product count by exactly
/// that quantity; the shipping cost moves from the caller to the shipment's
/// balance; the shipment starts moving and the order is linked to it.
pub fn send_logistics_to_seller_instruction(
    user: &mut User,
    logistics: &mut Logistics,
    warehouse: &mut Warehouse,
    order: &mut Order,
    product: &Product,
    signer: Address,
    logistics_address: Address,
    product_address: Address,
    payer_units: u64,
    logistics_units: u64,
    logistics_id: u64,
    product_id: u64,
    warehouse_id: u64,
    shipping_cost: u64,
    now: u64,
) -> (r: Result<ShipmentDispatch, SupplyChainErrors>)
    ensures
        r is Ok <==> spec_send_logistics_ok(
            *old(user), *old(logistics), *old(warehouse), *old(order), *product,
            payer_units, logistics_units,
            logistics_id, product_id, warehouse_id, shipping_cost,
        ),
        r matches Ok(dispatch) ==> {
            &&& dispatch.new_payer_units == payer_units - shipping_cost
            &&& dispatch.new_logistics_units == logistics_units + shipping_cost
            &&& dispatch.transaction == (Transaction {
                transaction_id: (old(user).transaction_count + 1) as u64,
                from: signer,
                to: logistics_address,
                amount: shipping_cost,
                timestamp: now,
                status: true,
            })
            &&& *final(logistics) == (Logistics {
                shipment_started_at: now,
                product_stock: old(order).product_stock,
                status: ShipmentStatus::OnTheWay,
                balance: (old(logistics).balance + shipping_cost) as u64,
                ..*old(logistics)
            })
            &&& *final(warehouse) == (Warehouse {
                logistic_count: (old(warehouse).logistic_count + 1) as u64,
                product_count: (old(warehouse).product_count - old(order).product_stock) as u64,
                ..*old(warehouse)
            })
            &&& *final(order) == (Order {
                logistic_id: old(logistics).logistic_id,
                product_pda: product_address,
                logistic_pda: logistics_address,
                ..*old(order)
            })
            &&& *final(user) == (User {
                transaction_count: (old(user).transaction_count + 1) as u64,
                ..*old(user)
            })
        },
        r matches Err(e) ==> {
            &&& *final(user) == *old(user)
            &&& *final(logistics) == *old(logistics)
            &&& *final(warehouse) == *old(warehouse)
            &&& *final(order) == *old(order)
            &&& e == spec_send_logistics_err(
                *old(user), *old(logistics), *old(warehouse), *old(order), *product,
                payer_units, logistics_units,
                logistics_id, product_id, warehouse_id, shipping_cost,
            )
        },
{
    if product_id != product.product_id {
        return Err(SupplyChainErrors::InvalidProductId);
    }
    if warehouse_id != warehouse.warehouse_id {
        return Err(SupplyChainErrors::InvalidWarehouse);
    }
    if logistics_id != logistics.logistic_id {
        return Err(SupplyChainErrors::InvalidLogistics);
    }
    if !(user.role == Role::Warehouse) {
        return Err(SupplyChainErrors::UnauthorizedAccess);
    }
    if order.warehouse_id != warehouse.warehouse_id {
        return Err(SupplyChainErrors::InvalidWarehouse);
    }
    if order.product_id != warehouse.product_id {
        return Err(SupplyChainErrors::InvalidProductId);
    }
    let (new_payer_units, new_logistics_units) = match transfer_units(
        payer_units,
        logistics_units,
        shipping_cost,
    ) {
        Ok(units) => units,
        Err(e) => {
            return Err(e);
        },
    };
    let new_logistics_balance = match logistics.balance.checked_add(shipping_cost) {
        Some(balance) => balance,
        None => {
            return Err(SupplyChainErrors::Overflow);
        },
    };
    let new_logistic_count = match warehouse.logistic_count.checked_add(1) {
        Some(count) => count,
        None => {
            return Err(SupplyChainErrors::Overflow);
        },
    };
    let new_product_count = match warehouse.product_count.checked_sub(order.product_stock) {
        Some(count) => count,
        None => {
            return Err(SupplyChainErrors::Overflow);
        },
    };
    let transaction_id = match user.transaction_count.checked_add(1) {
        Some(id) => id,
        None => {
            return Err(SupplyChainErrors::Overflow);
        },
    };
    logistics.shipment_started_at = now;
    logistics.product_stock = order.product_stock;
    logistics.status = ShipmentStatus::OnTheWay;
    logistics.balance = new_logistics_balance;
    warehouse.logistic_count = new_logistic_count;
    warehouse.product_count = new_product_count;
    order.logistic_id = logistics.logistic_id;
    order.product_pda = product_address;
    order.logistic_pda = logistics_address;
    user.transaction_count = transaction_id;
    Ok(
        ShipmentDispatch {
            new_payer_units,
            new_logistics_units,
            transaction: Transaction {
                transaction_id,
                from: signer,
                to: logistics_address,
                amount: shipping_cost,
                timestamp: now,
                status: true,
            },
        },
    )
}

/// Withdraws from a warehouse's ledger balance through the settlement
/// engine.  The caller must own the warehouse under a WAREHOUSE-role
/// identity.
pub fn withdraw_balance_as_warehouse_instruction(
    warehouse: &mut Warehouse,
    user: &mut User,
    config: &ProgramState,
    caller: Address,
    platform_address: Address,
    warehouse_address: Address,
    source_units: u64,
    reserve: u64,
    caller_units: u64,
    platform_units: u64,
    amount: u64,
    now: u64,
) -> (r: Result<WithdrawalReceipt, SupplyChainErrors>)
    ensures
        ({
            let outcome = spec_withdraw_outcome(
                old(user).role == Role::Warehouse && old(warehouse).owner == caller,
                *config, platform_address, old(warehouse).balance, source_units,
                reserve, caller_units, platform_units, amount,
                old(user).transaction_count,
            );
            &&& (r is Ok <==> outcome is Ok)
            &&& (r matches Err(e) ==> outcome == Err::<(), SupplyChainErrors>(e))
        }),
        r matches Ok(w) ==> {
            &&& w.settlement.platform_fee == spec_platform_fee(amount, config.platform_fee)
            &&& w.settlement.net + w.settlement.platform_fee == amount
            &&& w.settlement.new_source_units == source_units - amount
            &&& w.settlement.new_caller_units == caller_units + w.settlement.net
            &&& w.settlement.new_platform_units == platform_units + w.settlement.platform_fee
            &&& *final(warehouse) == (Warehouse {
                balance: (old(warehouse).balance - amount) as u64,
                ..*old(warehouse)
            })
            &&& *final(user) == (User {
                transaction_count: (old(user).transaction_count + 1) as u64,
                ..*old(user)
            })
            &&& w.transaction == (Transaction {
                transaction_id: (old(user).transaction_count + 1) as u64,
                from: warehouse_address,
                to: caller,
                amount,
                timestamp: now,
                status: true,
            })
        },
        r is Err ==> *final(warehouse) == *old(warehouse) && *final(user) == *old(user),
{
    if !(user.role == Role::Warehouse && warehouse.owner == caller) {
        return Err(SupplyChainErrors::UnauthorizedAccess);
    }
    let settlement = match settle_withdrawal(
        config,
        platform_address,
        warehouse.balance,
        source_units,
        reserve,
        caller_units,
        platform_units,
        amount,
    ) {
        Ok(s) => s,
        Err(e) => {
            return Err(e);
        },
    };
    let transaction_id = match user.transaction_count.checked_add(1) {
        Some(id) => id,
        None => {
            return Err(SupplyChainErrors::Overflow);
        },
    };
    warehouse.balance = settlement.new_balance;
    user.transaction_count = transaction_id;
    let transaction = Transaction {
        transaction_id,
        from: warehouse_address,
        to: caller,
        amount,
        timestamp: now,
        status: true,
    };
    Ok(WithdrawalReceipt { settlement, transaction })
}

/// Withdraws from a shipment's ledger balance through the settlement
/// engine.  The caller must own the logistics record under a
/// LOGISTICS-role identity.
pub fn withdraw_balance_as_logistics_instruction(
    logistics: &mut Logistics,
    user: &mut User,
    config: &ProgramState,
    caller: Address,
    platform_address: Address,
    logistics_address: Address,
    source_units: u64,
    reserve: u64,
    caller_units: u64,
    platform_units: u64,
    amount: u64,
    now: u64,
) -> (r: Result<WithdrawalReceipt, SupplyChainErrors>)
    ensures
        ({
            let outcome = spec_withdraw_outcome(
                old(user).role == Role::Logistics && old(logistics).owner == caller,
                *config, platform_address, old(logistics).balance, source_units,
                reserve, caller_units, platform_units, amount,
                old(user).transaction_count,
            );
            &&& (r is Ok <==> outcome is Ok)
            &&& (r matches Err(e) ==> outcome == Err::<(), SupplyChainErrors>(e))
        }),
        r matches Ok(w) ==> {
            &&& w.settlement.platform_fee == spec_platform_fee(amount, config.platform_fee)
            &&& w.settlement.net + w.settlement.platform_fee == amount
            &&& w.settlement.new_source_units == source_units - amount
            &&& w.settlement.new_caller_units == caller_units + w.settlement.net
            &&& w.settlement.new_platform_units == platform_units + w.settlement.platform_fee
            &&& *final(logistics) == (Logistics {
                balance: (old(logistics).balance - amount) as u64,
                ..*old(logistics)
            })
            &&& *final(user) == (User {
                transaction_count: (old(user).transaction_count + 1) as u64,
                ..*old(user)
            })
            &&& w.transaction == (Transaction {
                transaction_id: (old(user).transaction_count + 1) as u64,
                from: logistics_address,
                to: caller,
                amount,
                timestamp: now,
                status: true,
            })
        },
        r is Err ==> *final(logistics) == *old(logistics) && *final(user) == *old(user),
{
    if !(user.role == Role::Logistics && logistics.owner == caller) {
        return Err(SupplyChainErrors::UnauthorizedAccess);
    }
    let settlement = match settle_withdrawal(
        config,
        platform_address,
        logistics.balance,
        source_units,
        reserve,
        caller_units,
        platform_units,
        amount,
    ) {
        Ok(s) => s,
        Err(e) => {
            return Err(e);
        },
    };
    let transaction_id = match user.transaction_count.checked_add(1) {
        Some(id) => id,
        None => {
            return Err(SupplyChainErrors::Overflow);
        },
    };
    logistics.balance = settlement.new_balance;
    user.transaction_count = transaction_id;
    let transaction = Transaction {
        transaction_id,
        from: logistics_address,
        to: caller,
        amount,
        timestamp: now,
        status: true,
    };
    Ok(WithdrawalReceipt { settlement, transaction })
}

} // verus!
