use crate::address::Address;
use crate::errors::SupplyChainErrors;
use crate::settlement::{
    settle_withdrawal, spec_platform_fee, spec_withdraw_outcome, transfer_units,
    WithdrawalReceipt,
};
use crate::states::{
    CustomerProduct, Logistics, Order, OrderStatus, Product, ProgramState, Role, Seller,
    SellerProductStock, ShipmentStatus, Transaction, User,
};
use vstd::prelude::*;
use vstd::string::StrSliceExecFns;

verus! {

/// Whether a SELLER-role identity may create a seller record with these
/// field lengths.
pub open spec fn spec_create_seller_ok(
    u: User,
    name: Seq<char>,
    description: Seq<char>,
    contact_info: Seq<char>,
) -> bool {
    &&& u.role == Role::Seller
    &&& name.len() <= 32
    &&& description.len() <= 512
    &&& contact_info.len() <= 512
    &&& u.seller_count < u64::MAX
}

/// The first violated seller-creation check, in the order checked.
pub open spec fn spec_create_seller_err(
    u: User,
    name: Seq<char>,
    description: Seq<char>,
    contact_info: Seq<char>,
) -> SupplyChainErrors {
    if u.role != Role::Seller {
        SupplyChainErrors::UnauthorizedAccess
    } else if name.len() > 32 {
        SupplyChainErrors::InvalidName
    } else if description.len() > 512 {
        SupplyChainErrors::InvalidDescription
    } else if contact_info.len() > 512 {
        SupplyChainErrors::InvalidContactInfo
    } else {
        SupplyChainErrors::Overflow
    }
}

/// Creates a seller record for a SELLER-role identity.  The seller takes
/// the identity's next seller sequence id and starts with no products, no
/// orders and an empty balance.
pub fn create_seller_instruction(
    user: &mut User,
    owner: Address,
    name: String,
    description: String,
    latitude: i64,
    longitude: i64,
    contact_info: String,
    now: u64,
) -> (r: Result<Seller, SupplyChainErrors>)
    ensures
        r is Ok <==> spec_create_seller_ok(*old(user), name@, description@, contact_info@),
        r matches Ok(s) ==> {
            &&& s == (Seller {
                seller_id: (old(user).seller_count + 1) as u64,
                name,
                description,
                products_count: 0,
                latitude,
                longitude,
                contact_info,
                registered_at: now,
                order_count: 0,
                balance: 0,
                owner,
            })
            &&& *final(user) == (User {
                seller_count: (old(user).seller_count + 1) as u64,
                ..*old(user)
            })
        },
        r matches Err(e) ==> *final(user) == *old(user) && e == spec_create_seller_err(
            *old(user),
            name@,
            description@,
            contact_info@,
        ),
{
    if !(user.role == Role::Seller) {
        return Err(SupplyChainErrors::UnauthorizedAccess);
    }
    if name.as_str().unicode_len() > 32 {
        return Err(SupplyChainErrors::InvalidName);
    }
    if description.as_str().unicode_len() > 512 {
        return Err(SupplyChainErrors::InvalidDescription);
    }
    if contact_info.as_str().unicode_len() > 512 {
        return Err(SupplyChainErrors::InvalidContactInfo);
    }
    let seller_id = match user.seller_count.checked_add(1) {
        Some(id) => id,
        None => {
            return Err(SupplyChainErrors::Overflow);
        },
    };
    user.seller_count = seller_id;
    Ok(
        Seller {
            seller_id,
            name,
            description,
            products_count: 0,
            latitude,
            longitude,
            contact_info,
            registered_at: now,
            order_count: 0,
            balance: 0,
            owner,
        },
    )
}

/// Whether a delivery receipt is accepted: a SELLER-role caller whose
/// identity owns the seller record, and room in the seller's product
/// counter.
pub open spec fn spec_receive_product_ok(u: User, s: Seller) -> bool {
    &&& u.role == Role::Seller
    &&& u.owner == s.owner
    &&& s.products_count < u64::MAX
}

/// The first violated delivery-receipt check, in the order checked.
pub open spec fn spec_receive_product_err(u: User, s: Seller) -> SupplyChainErrors {
    if u.role != Role::Seller {
        SupplyChainErrors::UnauthorizedAccess
    } else if u.owner != s.owner {
        SupplyChainErrors::UnauthorizedAccess
    } else {
        SupplyChainErrors::Overflow
    }
}

/// A seller takes delivery of a shipment.  The shipment's in-transit stock
/// becomes a new seller-stock record for the shipped product, the shipment
/// is marked delivered — permanently — with its end timestamp recorded,
/// and the order moves to the DELIVERED status.
pub fn receive_product_instruction_as_seller(
    user: &mut User,
    seller: &mut Seller,
    order: &mut Order,
    logistics: &mut Logistics,
    seller_address: Address,
    now: u64,
) -> (r: Result<SellerProductStock, SupplyChainErrors>)
    ensures
        r is Ok <==> spec_receive_product_ok(*old(user), *old(seller)),
        r matches Ok(stock) ==> {
            &&& stock == (SellerProductStock {
                seller_id: old(seller).seller_id,
                seller_pda: seller_address,
                product_id: old(logistics).product_id,
                product_pda: old(order).product_pda,
                stock_quantity: old(logistics).product_stock,
                stock_price: 0,
                created_at: now,
            })
            &&& *final(seller) == (Seller {
                products_count: (old(seller).products_count + 1) as u64,
                ..*old(seller)
            })
            &&& *final(logistics) == (Logistics {
                delivered: true,
                status: ShipmentStatus::Delivered,
                shipment_ended_at: now,
                ..*old(logistics)
            })
            &&& *final(order) == (Order { status: OrderStatus::Delivered, ..*old(order) })
            &&& *final(user) == *old(user)
        },
        r matches Err(e) ==> {
            &&& *final(user) == *old(user)
            &&& *final(seller) == *old(seller)
            &&& *final(order) == *old(order)
            &&& *final(logistics) == *old(logistics)
            &&& e == spec_receive_product_err(*old(user), *old(seller))
        },
{
    if !(user.role == Role::Seller) {
        return Err(SupplyChainErrors::UnauthorizedAccess);
    }
    if !(user.owner == seller.owner) {
        return Err(SupplyChainErrors::UnauthorizedAccess);
    }
    let new_products_count = match seller.products_count.checked_add(1) {
        Some(count) => count,
        None => {
            return Err(SupplyChainErrors::Overflow);
        },
    };
    seller.products_count = new_products_count;
    logistics.delivered = true;
    logistics.status = ShipmentStatus::Delivered;
    logistics.shipment_ended_at = now;
    order.status = OrderStatus::Delivered;
    Ok(
        SellerProductStock {
            seller_id: seller.seller_id,
            seller_pda: seller_address,
            product_id: logistics.product_id,
            product_pda: order.product_pda,
            stock_quantity: logistics.product_stock,
            stock_price: 0,
            created_at: now,
        },
    )
}

/// The price of a retail purchase: the product's maximum retail price
/// times the purchased quantity.
pub open spec fn spec_retail_price(p: Product, quantity: u64) -> int {
    p.mrp * quantity
}

/// Whether a customer purchase is accepted, in the order checked: a
/// customer caller, enough seller stock, price arithmetic in range, a
/// buyer able to cover the price, and room in every balance and counter
/// the purchase lands in.
pub open spec fn spec_buy_as_customer_ok(
    u: User,
    s: Seller,
    stock_record: SellerProductStock,
    held: CustomerProduct,
    p: Product,
    buyer_units: u64,
    seller_units: u64,
    quantity: u64,
) -> bool {
    &&& (u.role == Role::Customer || u.is_customer)
    &&& quantity <= stock_record.stock_quantity
    &&& spec_retail_price(p, quantity) <= u64::MAX
    &&& buyer_units >= spec_retail_price(p, quantity)
    &&& seller_units + spec_retail_price(p, quantity) <= u64::MAX
    &&& held.stock_quantity + quantity <= u64::MAX
    &&& s.balance + spec_retail_price(p, quantity) <= u64::MAX
    &&& u.transaction_count < u64::MAX
    &&& u.product_count < u64::MAX
}

/// The first violated customer-purchase check, in the order checked.
pub open spec fn spec_buy_as_customer_err(
    u: User,
    s: Seller,
    stock_record: SellerProductStock,
    held: CustomerProduct,
    p: Product,
    buyer_units: u64,
    seller_units: u64,
    quantity: u64,
) -> SupplyChainErrors {
    if !(u.role == Role::Customer || u.is_customer) {
        SupplyChainErrors::UnauthorizedAccess
    } else if quantity > stock_record.stock_quantity {
        SupplyChainErrors::InsufficientStock
    } else if spec_retail_price(p, quantity) > u64::MAX {
        SupplyChainErrors::Overflow
    } else if buyer_units < spec_retail_price(p, quantity) {
        SupplyChainErrors::InsufficientBalance
    } else {
        SupplyChainErrors::Overflow
    }
}

/// What a successful customer purchase commits: the paid total, both
/// account balances after the transfer, and the appended transaction.
#[derive(Clone, Debug)]
pub struct CustomerPurchase {
    pub total_price: u64,
    pub new_buyer_units: u64,
    pub new_seller_units: u64,
    pub transaction: Transaction,
}

/// An end customer buys from a seller.  Exactly the purchased quantity
/// leaves the seller's stock record and accumulates into the customer's
/// holding of the product; the retail price moves from the buyer to the
/// seller, whose ledger balance grows by the same total.
pub fn buy_product_as_customer_ctx(
    user: &mut User,
    seller: &mut Seller,
    seller_product: &mut SellerProductStock,
    customer_product: &mut CustomerProduct,
    product: &Product,
    buyer: Address,
    seller_address: Address,
    product_address: Address,
    buyer_units: u64,
    seller_units: u64,
    stock: u64,
    now: u64,
) -> (r: Result<CustomerPurchase, SupplyChainErrors>)
    ensures
        r is Ok <==> spec_buy_as_customer_ok(
            *old(user), *old(seller), *old(seller_product), *old(customer_product),
            *product, buyer_units, seller_units, stock,
        ),
        r matches Ok(purchase) ==> {
            &&& purchase.total_price == spec_retail_price(*product, stock)
            &&& purchase.new_buyer_units == buyer_units - purchase.total_price
            &&& purchase.new_seller_units == seller_units + purchase.total_price
            &&& purchase.transaction == (Transaction {
                transaction_id: (old(user).transaction_count + 1) as u64,
                from: buyer,
                to: seller_address,
                amount: purchase.total_price,
                timestamp: now,
                status: true,
            })
            &&& *final(customer_product) == (CustomerProduct {
                product_id: product.product_id,
                product_pda: product_address,
                seller_pda: seller_address,
                owner: buyer,
                stock_quantity: (old(customer_product).stock_quantity + stock) as u64,
                purchased_on: now,
            })
            &&& *final(seller) == (Seller {
                balance: (old(seller).balance + purchase.total_price) as u64,
                ..*old(seller)
            })
            &&& *final(seller_product) == (SellerProductStock {
                stock_quantity: (old(seller_product).stock_quantity - stock) as u64,
                ..*old(seller_product)
            })
            &&& *final(user) == (User {
                transaction_count: (old(user).transaction_count + 1) as u64,
                product_count: (old(user).product_count + 1) as u64,
                ..*old(user)
            })
        },
        r matches Err(e) ==> {
            &&& *final(user) == *old(user)
            &&& *final(seller) == *old(seller)
            &&& *final(seller_product) == *old(seller_product)
            &&& *final(customer_product) == *old(customer_product)
            &&& e == spec_buy_as_customer_err(
                *old(user), *old(seller), *old(seller_product), *old(customer_product),
                *product, buyer_units, seller_units, stock,
            )
        },
{
    if !(user.role == Role::Customer || user.is_customer) {
        return Err(SupplyChainErrors::UnauthorizedAccess);
    }
    if stock > seller_product.stock_quantity {
        return Err(SupplyChainErrors::InsufficientStock);
    }
    let total_price = match product.mrp.checked_mul(stock) {
        Some(total) => total,
        None => {
            return Err(SupplyChainErrors::Overflow);
        },
    };
    let (new_buyer_units, new_seller_units) = match transfer_units(
        buyer_units,
        seller_units,
        total_price,
    ) {
        Ok(units) => units,
        Err(e) => {
            return Err(e);
        },
    };
    let new_held_quantity = match customer_product.stock_quantity.checked_add(stock) {
        Some(quantity) => quantity,
        None => {
            return Err(SupplyChainErrors::Overflow);
        },
    };
    let new_seller_balance = match seller.balance.checked_add(total_price) {
        Some(balance) => balance,
        None => {
            return Err(SupplyChainErrors::Overflow);
        },
    };
    let transaction_id = match user.transaction_count.checked_add(1) {
        Some(id) => id,
        None => {
            return Err(SupplyChainErrors::Overflow);
        },
    };
    let new_product_count = match user.product_count.checked_add(1) {
        Some(count) => count,
        None => {
            return Err(SupplyChainErrors::Overflow);
        },
    };
    customer_product.product_id = product.product_id;
    customer_product.stock_quantity = new_held_quantity;
    customer_product.product_pda = product_address;
    customer_product.owner = buyer;
    customer_product.seller_pda = seller_address;
    customer_product.purchased_on = now;
    seller.balance = new_seller_balance;
    seller_product.stock_quantity = seller_product.stock_quantity - stock;
    user.transaction_count = transaction_id;
    user.product_count = new_product_count;
    Ok(
        CustomerPurchase {
            total_price,
            new_buyer_units,
            new_seller_units,
            transaction: Transaction {
                transaction_id,
                from: buyer,
                to: seller_address,
                amount: total_price,
                timestamp: now,
                status: true,
            },
        },
    )
}

/// Withdraws from a seller's ledger balance through the settlement engine.
/// The caller must own the seller record under a SELLER-role identity.
pub fn withdraw_balance_as_seller_instruction(
    seller: &mut Seller,
    user: &mut User,
    config: &ProgramState,
    caller: Address,
    platform_address: Address,
    seller_record_address: Address,
    source_units: u64,
    reserve: u64,
    caller_units: u64,
    platform_units: u64,
    amount: u64,
    now: u64,
) -> (r: Result<WithdrawalReceipt, SupplyChainErrors>)
    ensures
        ({
            let outcome = spec_withdraw_outcome(
                old(user).role == Role::Seller && old(seller).owner == caller,
                *config, platform_address, old(seller).balance, source_units,
                reserve, caller_units, platform_units, amount,
                old(user).transaction_count,
            );
            &&& (r is Ok <==> outcome is Ok)
            &&& (r matches Err(e) ==> outcome == Err::<(), SupplyChainErrors>(e))
        }),
        r matches Ok(w) ==> {
            &&& w.settlement.platform_fee == spec_platform_fee(amount, config.platform_fee)
            &&& w.settlement.net + w.settlement.platform_fee == amount
            &&& w.settlement.new_source_units == source_units - amount
            &&& w.settlement.new_caller_units == caller_units + w.settlement.net
            &&& w.settlement.new_platform_units == platform_units + w.settlement.platform_fee
            &&& *final(seller) == (Seller {
                balance: (old(seller).balance - amount) as u64,
                ..*old(seller)
            })
            &&& *final(user) == (User {
                transaction_count: (old(user).transaction_count + 1) as u64,
                ..*old(user)
            })
            &&& w.transaction == (Transaction {
                transaction_id: (old(user).transaction_count + 1) as u64,
                from: seller_record_address,
                to: caller,
                amount,
                timestamp: now,
                status: true,
            })
        },
        r is Err ==> *final(seller) == *old(seller) && *final(user) == *old(user),
{
    if !(user.role == Role::Seller && seller.owner == caller) {
        return Err(SupplyChainErrors::UnauthorizedAccess);
    }
    let settlement = match settle_withdrawal(
        config,
        platform_address,
        seller.balance,
        source_units,
        reserve,
        caller_units,
        platform_units,
        amount,
    ) {
        Ok(s) => s,
        Err(e) => {
            return Err(e);
        },
    };
    let transaction_id = match user.transaction_count.checked_add(1) {
        Some(id) => id,
        None => {
            return Err(SupplyChainErrors::Overflow);
        },
    };
    seller.balance = settlement.new_balance;
    user.transaction_count = transaction_id;
    let transaction = Transaction {
        transaction_id,
        from: seller_record_address,
        to: caller,
        amount,
        timestamp: now,
        status: true,
    };
    Ok(WithdrawalReceipt { settlement, transaction })
}

} // verus!
