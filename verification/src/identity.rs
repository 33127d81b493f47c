use crate::address::Address;
use crate::errors::SupplyChainErrors;
use crate::states::{ProgramState, Role, User};
use vstd::prelude::*;
use vstd::string::StringExecFns;

verus! {

/// The role a registration string names: one of the six known role names,
/// or `Other` for any other text.
pub open spec fn spec_role_of_text(s: Seq<char>) -> Role {
    if s == "FACTORY"@ {
        Role::Factory
    } else if s == "WAREHOUSE"@ {
        Role::Warehouse
    } else if s == "LOGISTICS"@ {
        Role::Logistics
    } else if s == "SELLER"@ {
        Role::Seller
    } else if s == "INSPECTOR"@ {
        Role::Inspector
    } else if s == "CUSTOMER"@ {
        Role::Customer
    } else {
        Role::Other
    }
}

/// Maps a registration string to its role tag.
pub fn role_of_text(s: &String) -> (r: Role)
    ensures
        r == spec_role_of_text(s@),
{
    if s.eq(&String::from_str("FACTORY")) {
        Role::Factory
    } else if s.eq(&String::from_str("WAREHOUSE")) {
        Role::Warehouse
    } else if s.eq(&String::from_str("LOGISTICS")) {
        Role::Logistics
    } else if s.eq(&String::from_str("SELLER")) {
        Role::Seller
    } else if s.eq(&String::from_str("INSPECTOR")) {
        Role::Inspector
    } else if s.eq(&String::from_str("CUSTOMER")) {
        Role::Customer
    } else {
        Role::Other
    }
}

/// Creates the global configuration: fails if it already exists, otherwise
/// records the bootstrapping owner and starts the platform fee at two
/// percent.
pub fn initialize_program_state(program_state: &mut ProgramState, owner: Address) -> (r: Result<
    (),
    SupplyChainErrors,
>)
    ensures
        r is Ok <==> !old(program_state).initialized,
        r is Ok ==> *final(program_state) == (ProgramState {
            owner,
            platform_fee: 2,
            initialized: true,
        }),
        r is Ok ==> final(program_state).wf(),
        r matches Err(e) ==> *final(program_state) == *old(program_state) && e
            == SupplyChainErrors::ProgramAlreadyInitialized,
{
    if program_state.initialized {
        return Err(SupplyChainErrors::ProgramAlreadyInitialized);
    }
    program_state.owner = owner;
    program_state.platform_fee = 2;
    program_state.initialized = true;
    Ok(())
}

/// Sets the platform fee percentage: only the configured owner may, and
/// only to at most five percent, so the configuration invariant is
/// preserved.
pub fn update_platform_fee(state: &mut ProgramState, caller: Address, fee: u64) -> (r: Result<
    (),
    SupplyChainErrors,
>)
    ensures
        r is Ok <==> old(state).owner == caller && fee <= 5,
        r is Ok ==> *final(state) == (ProgramState { platform_fee: fee, ..*old(state) }),
        r is Ok ==> final(state).wf(),
        r matches Err(e) ==> *final(state) == *old(state) && e == (
        if old(state).owner != caller {
            SupplyChainErrors::UnauthorizedAccess
        } else {
            SupplyChainErrors::InvalidPlatformFee
        }),
{
    if !(state.owner == caller) {
        return Err(SupplyChainErrors::UnauthorizedAccess);
    }
    if fee > 5 {
        return Err(SupplyChainErrors::InvalidPlatformFee);
    }
    state.platform_fee = fee;
    Ok(())
}

/// Whether a registration with these field lengths and this prior record is
/// accepted.
pub open spec fn spec_create_user_ok(
    u: User,
    name: Seq<char>,
    email: Seq<char>,
    role: Seq<char>,
) -> bool {
    name.len() <= 32 && role.len() <= 32 && email.len() <= 64 && !u.is_initialized
}

/// The first violated registration check, in the order checked: the name,
/// role and email bounds, then the create-once rule.
pub open spec fn spec_create_user_err(
    u: User,
    name: Seq<char>,
    email: Seq<char>,
    role: Seq<char>,
) -> SupplyChainErrors {
    if name.len() > 32 {
        SupplyChainErrors::InvalidName
    } else if role.len() > 32 {
        SupplyChainErrors::InvalidRole
    } else if email.len() > 64 {
        SupplyChainErrors::InvalidEmail
    } else {
        SupplyChainErrors::UserAlreadyInitialized
    }
}

/// Registers an identity for `owner`: at most once per owner, with bounded
/// fields.  The role string is mapped to its tag, `is_customer` records
/// whether it named the customer role, and every per-role counter starts
/// at zero.
pub fn create_user(
    user: &mut User,
    owner: Address,
    name: String,
    email: String,
    role: String,
    now: u64,
) -> (r: Result<(), SupplyChainErrors>)
    ensures
        r is Ok <==> spec_create_user_ok(*old(user), name@, email@, role@),
        r is Ok ==> final(user).wf(),
        r is Ok ==> *final(user) == (User {
            name,
            role: spec_role_of_text(role@),
            email,
            created_at: now,
            owner,
            factory_count: 0,
            transaction_count: 0,
            warehouse_count: 0,
            logistics_count: 0,
            seller_count: 0,
            inspector_count: 0,
            product_count: 0,
            is_customer: spec_role_of_text(role@) == Role::Customer,
            is_initialized: true,
        }),
        r matches Err(e) ==> *final(user) == *old(user) && e == spec_create_user_err(
            *old(user),
            name@,
            email@,
            role@,
        ),
{
    if name.as_str().unicode_len() > 32 {
        return Err(SupplyChainErrors::InvalidName);
    }
    if role.as_str().unicode_len() > 32 {
        return Err(SupplyChainErrors::InvalidRole);
    }
    if email.as_str().unicode_len() > 64 {
        return Err(SupplyChainErrors::InvalidEmail);
    }
    if user.is_initialized {
        return Err(SupplyChainErrors::UserAlreadyInitialized);
    }
    let tag = role_of_text(&role);
    user.name = name;
    user.email = email;
    user.role = tag;
    user.created_at = now;
    user.owner = owner;
    user.factory_count = 0;
    user.transaction_count = 0;
    user.product_count = 0;
    user.warehouse_count = 0;
    user.logistics_count = 0;
    user.inspector_count = 0;
    user.seller_count = 0;
    user.is_customer = tag == Role::Customer;
    user.is_initialized = true;
    Ok(())
}

} // verus!
