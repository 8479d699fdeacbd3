//! Classification of raw 16-bit USB identifiers against the fixed table of
//! recognized vendors and products.

use vstd::prelude::*;

verus! {

/// A recognized vendor. There is no variant for "unknown": an unrecognized
/// raw value is an error, not a value.
#[derive(Clone, Copy, Debug, PartialEq, Eq, Structural)]
pub enum VendorIdentifier {
    NA,
    EU,
}

/// A recognized product, under the same construction discipline as
/// [`VendorIdentifier`].
#[derive(Clone, Copy, Debug, PartialEq, Eq, Structural)]
pub enum ProductIdentifier {
    NA,
    EU1,
    EU2,
    EU3,
    EU4,
}

/// Which of the two identifier axes failed to classify.
#[derive(Clone, Copy, Debug, PartialEq, Eq, Structural)]
pub enum IdentifierAxis {
    Vendor,
    Product,
}

/// Classification failure: the raw value is not in the recognized table.
#[derive(Clone, Copy, Debug, PartialEq, Eq, Structural)]
pub enum ClassificationError {
    UnrecognizedIdentifier(IdentifierAxis),
}

/// The vendor table: exactly two recognized raw values.
pub open spec fn spec_classify_vendor(id: u16) -> Result<VendorIdentifier, ClassificationError> {
    if id == 0x0951 {
        Ok(VendorIdentifier::NA)
    } else if id == 0x03f0 {
        Ok(VendorIdentifier::EU)
    } else {
        Err(ClassificationError::UnrecognizedIdentifier(IdentifierAxis::Vendor))
    }
}

/// The product table: exactly five recognized raw values.
pub open spec fn spec_classify_product(id: u16) -> Result<ProductIdentifier, ClassificationError> {
    if id == 0x171f {
        Ok(ProductIdentifier::NA)
    } else if id == 0x0f8b {
        Ok(ProductIdentifier::EU1)
    } else if id == 0x028c {
        Ok(ProductIdentifier::EU2)
    } else if id == 0x048c {
        Ok(ProductIdentifier::EU3)
    } else if id == 0x068c {
        Ok(ProductIdentifier::EU4)
    } else {
        Err(ClassificationError::UnrecognizedIdentifier(IdentifierAxis::Product))
    }
}

/// Maps a raw vendor identifier to its named variant.
///
/// Total and deterministic: it accepts every 16-bit value and its result is
/// pinned to [`spec_classify_vendor`], a function of the input alone. Every
/// value outside the two-entry vendor table fails with
/// `UnrecognizedIdentifier(Vendor)`.
pub fn classify_vendor(id: u16) -> (r: Result<VendorIdentifier, ClassificationError>)
    ensures
        r == spec_classify_vendor(id),
        r is Ok <==> (id == 0x0951 || id == 0x03f0),
{
    match id {
        0x0951 => Ok(VendorIdentifier::NA),
        0x03f0 => Ok(VendorIdentifier::EU),
        _ => Err(ClassificationError::UnrecognizedIdentifier(IdentifierAxis::Vendor)),
    }
}

/// Maps a raw product identifier to its named variant.
///
/// Total and deterministic, like [`classify_vendor`]. Every value outside the
/// five-entry product table fails with `UnrecognizedIdentifier(Product)`.
pub fn classify_product(id: u16) -> (r: Result<ProductIdentifier, ClassificationError>)
    ensures
        r == spec_classify_product(id),
        r is Ok <==> (id == 0x171f || id == 0x0f8b || id == 0x028c || id == 0x048c
            || id == 0x068c),
{
    match id {
        0x171f => Ok(ProductIdentifier::NA),
        0x0f8b => Ok(ProductIdentifier::EU1),
        0x028c => Ok(ProductIdentifier::EU2),
        0x048c => Ok(ProductIdentifier::EU3),
        0x068c => Ok(ProductIdentifier::EU4),
        _ => Err(ClassificationError::UnrecognizedIdentifier(IdentifierAxis::Product)),
    }
}

} // verus!
