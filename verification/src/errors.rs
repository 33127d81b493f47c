use vstd::prelude::*;

verus! {

/// Every way an operation can fail.  Each operation returns the first error
/// whose condition holds, in the order its contract states, and mutates
/// nothing when it fails.
#[derive(Clone, Copy, Debug, PartialEq, Eq, Structural)]
pub enum SupplyChainErrors {
    /// Role or ownership mismatch, or a platform address that is not the
    /// configured owner.
    UnauthorizedAccess,
    /// The program configuration was already created.
    ProgramAlreadyInitialized,
    /// This owner already registered an identity.
    UserAlreadyInitialized,
    /// A name longer than its bound.
    InvalidName,
    /// A role string longer than its bound.
    InvalidRole,
    /// An email longer than its bound.
    InvalidEmail,
    /// A platform fee above five percent.
    InvalidPlatformFee,
    /// A description longer than its bound.
    InvalidDescription,
    /// Contact information longer than its bound.
    InvalidContactInfo,
    /// A factory id that does not match the factory record.
    InvalidFactory,
    /// A product id that does not match the product record.
    InvalidProductId,
    /// The product was already quality checked.
    QualityChecked,
    /// An inspection outcome longer than its bound.
    InvalidInspectionOutcome,
    /// Notes longer than their bound.
    InvalidNotes,
    /// A checked addition, subtraction or multiplication on a balance,
    /// stock or counter left the numeric domain.
    Overflow,
    /// An inspector id that does not match the product's inspection link.
    InvalidInspectorId,
    /// The product has not been quality checked yet.
    ProductNotQualityChecked,
    /// A balance too small for the requested movement, or a withdrawal that
    /// would eat into the reserve floor.
    InsufficientBalance,
    /// A withdrawal below the minimum withdrawal amount.
    InsifficentWithdraw,
    /// Less stock on hand than the requested quantity.
    InsufficientStock,
    /// A warehouse id that does not match the warehouse record.
    InvalidWarehouse,
    /// A logistics id that does not match the logistics record.
    InvalidLogistics,
}

} // verus!
