use crate::address::Address;
use vstd::prelude::*;

verus! {

/// The role an identity registered under.  Roles arrive as strings and are
/// mapped to this closed set once, at registration; every later check
/// compares variants, never raw text.  A string that names no known role
/// registers as `Other`: such an identity exists but passes no role check.
#[derive(Clone, Copy, Debug, PartialEq, Eq, Structural)]
pub enum Role {
    Factory,
    Warehouse,
    Logistics,
    Seller,
    Inspector,
    Customer,
    Other,
}

/// The forward-only status of a wholesale order.
#[derive(Clone, Copy, Debug, PartialEq, Eq, Structural)]
pub enum OrderStatus {
    Ordered,
    Delivered,
}

/// The forward-only status of a shipment.
#[derive(Clone, Copy, Debug, PartialEq, Eq, Structural)]
pub enum ShipmentStatus {
    Pending,
    OnTheWay,
    Delivered,
}

/// Global program configuration: the platform owner and the platform fee
/// percentage, created exactly once.
#[derive(Clone, Debug)]
pub struct ProgramState {
    pub owner: Address,
    pub platform_fee: u64,
    pub initialized: bool,
}

impl ProgramState {
    /// The configuration invariant: the platform fee never exceeds five
    /// percent.  Established at initialization and preserved by every fee
    /// update.
    pub open spec fn wf(self) -> bool {
        self.platform_fee <= 5
    }
}

/// A registered actor: one per owner address, holding the role tag and the
/// per-role monotonic counters used to allocate ids for the records it
/// creates.
#[derive(Clone, Debug)]
pub struct User {
    pub name: String,
    pub role: Role,
    pub email: String,
    pub created_at: u64,
    pub owner: Address,
    pub factory_count: u64,
    pub transaction_count: u64,
    pub warehouse_count: u64,
    pub logistics_count: u64,
    pub seller_count: u64,
    pub inspector_count: u64,
    pub product_count: u64,
    pub is_customer: bool,
    pub is_initialized: bool,
}

impl User {
    /// The identity invariant: the customer flag records exactly whether
    /// the identity registered under the customer role.  Registration
    /// establishes it, and no operation writes either field afterwards.
    pub open spec fn wf(self) -> bool {
        self.is_customer <==> self.role == Role::Customer
    }
}

/// A manufacturing site owned by a FACTORY-role identity.
#[derive(Clone, Debug)]
pub struct Factory {
    pub factory_id: u64,
    pub name: String,
    pub description: String,
    pub owner: Address,
    pub created_at: u64,
    pub latitude: i64,
    pub longitude: i64,
    pub contact_info: String,
    pub product_count: u64,
    pub balance: u64,
}

/// A good produced by a factory.  `quality_checked` and
/// `inspection_fee_paid` are one-way flags: once true, no operation resets
/// them.
#[derive(Clone, Debug)]
pub struct Product {
    pub product_id: u64,
    pub product_name: String,
    pub product_description: String,
    pub batch_number: String,
    pub product_image: String,
    pub factory_id: u64,
    pub factory_pda: Address,
    pub product_price: u64,
    pub product_stock: u64,
    pub raw_material_used: u64,
    pub quality_checked: bool,
    pub inspection_id: u64,
    pub inspector_pda: Address,
    pub inspection_fee_paid: bool,
    pub mrp: u64,
    pub created_at: u64,
}

/// A quality inspection record, created once per inspection and paid via
/// settlement.
#[derive(Clone, Debug)]
pub struct ProductInspector {
    pub inspector_id: u64,
    pub name: String,
    pub latitude: i64,
    pub longitude: i64,
    pub product_id: u64,
    pub inspection_outcome: String,
    pub notes: String,
    pub inspection_date: u64,
    pub fee_charge_per_product: u64,
    pub balance: u64,
    pub owner: Address,
}

/// A wholesale warehouse bound to a factory.
#[derive(Clone, Debug)]
pub struct Warehouse {
    pub warehouse_id: u64,
    pub factory_id: u64,
    pub created_at: u64,
    pub name: String,
    pub description: String,
    pub product_id: u64,
    pub product_pda: Address,
    pub product_count: u64,
    pub latitude: i64,
    pub longitude: i64,
    pub balance: u64,
    pub contact_details: String,
    pub owner: Address,
    pub warehouse_size: u64,
    pub logistic_count: u64,
}

/// A wholesale order placed by a seller against a warehouse.
#[derive(Clone, Debug)]
pub struct Order {
    pub order_id: u64,
    pub product_id: u64,
    pub product_pda: Address,
    pub product_stock: u64,
    pub warehouse_id: u64,
    pub warehouse_pda: Address,
    pub total_price: u64,
    pub timestamp: u64,
    pub seller_id: u64,
    pub seller_pda: Address,
    pub logistic_id: u64,
    pub logistic_pda: Address,
    pub status: OrderStatus,
}

/// A shipment operated by a LOGISTICS-role identity.
#[derive(Clone, Debug)]
pub struct Logistics {
    pub logistic_id: u64,
    pub name: String,
    pub transportation_mode: String,
    pub contact_info: String,
    pub status: ShipmentStatus,
    pub shipment_cost: u64,
    pub product_id: u64,
    /// A plain numeric product reference; the shipment never follows it as
    /// an address.
    pub product_pda: u64,
    pub product_stock: u64,
    pub delivery_confirmed: bool,
    pub balance: u64,
    pub warehouse_id: u64,
    pub shipment_started_at: u64,
    pub shipment_ended_at: u64,
    pub delivered: bool,
    pub latitude: i64,
    pub longitude: i64,
    pub owner: Address,
}

/// A retail seller.
#[derive(Clone, Debug)]
pub struct Seller {
    pub seller_id: u64,
    pub name: String,
    pub description: String,
    pub products_count: u64,
    pub latitude: i64,
    pub longitude: i64,
    pub contact_info: String,
    pub registered_at: u64,
    pub order_count: u64,
    pub balance: u64,
    pub owner: Address,
}

/// The stock a seller holds of one product, created on delivery receipt.
#[derive(Clone, Debug)]
pub struct SellerProductStock {
    pub seller_id: u64,
    pub seller_pda: Address,
    pub product_id: u64,
    pub product_pda: Address,
    pub stock_quantity: u64,
    pub stock_price: u64,
    pub created_at: u64,
}

/// The goods an end customer holds of one product; the quantity accumulates
/// across repeat purchases.
#[derive(Clone, Debug)]
pub struct CustomerProduct {
    pub product_id: u64,
    pub product_pda: Address,
    pub seller_pda: Address,
    pub owner: Address,
    pub stock_quantity: u64,
    pub purchased_on: u64,
}

/// One append-only money-movement record.
#[derive(Clone, Debug)]
pub struct Transaction {
    pub transaction_id: u64,
    pub from: Address,
    pub to: Address,
    pub amount: u64,
    pub timestamp: u64,
    pub status: bool,
}

} // verus!
