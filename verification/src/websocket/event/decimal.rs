//! The decimal numbers of prices and quantities.

use vstd::prelude::*;

use rust_decimal::Decimal;

verus! {

/// `rust_decimal::Decimal`, the decimal number that prices and quantities
/// are held in. Nothing is assumed of its value: it is carried as it is.
#[verifier::external_type_specification]
#[verifier::external_body]
pub struct ExDecimal(Decimal);

/// `Decimal::clone` of the `rust_decimal` crate: `Decimal` is a `Copy` type
/// with a derived `Clone`, so that a clone is the value itself.
pub assume_specification[ <Decimal as Clone>::clone ](value: &Decimal) -> (copy: Decimal)
    ensures
        copy == *value,
;

} // verus!
