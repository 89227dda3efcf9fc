//! The two chips of the family, as a run-time tag and as types.

use vstd::prelude::*;
use crate::register::ODR_MASK;

verus! {

/// Which chip of the family is on the bus.
#[derive(Clone, Copy, Debug, PartialEq, Eq, Structural)]
pub enum Variant {
    /// LPS22HB
    Lps22hb,
    /// LPS25HB
    Lps25hb,
}

/// A chip of the family as a type.
///
/// A driver is tied to one chip through its interface, so that rates and
/// features of the other chip cannot be asked of it.
pub trait Sensor {
    /// The output data rates that the chip offers.
    type Rate;

    /// The chip's tag.
    spec fn tag() -> Variant;

    /// The ODR field of CTRL_REG1 that selects `rate`, in place.
    spec fn rate_code(rate: Self::Rate) -> u8;

    /// The code of a rate has no bit outside the ODR field.
    proof fn rate_code_in_field(rate: Self::Rate)
        ensures
            Self::rate_code(rate) & !ODR_MASK == 0,
    ;

    /// The chip's tag, at run time.
    fn variant() -> (v: Variant)
        ensures
            v == Self::tag(),
    ;

    /// The code of a rate, shifted into the ODR field.
    fn rate_value(rate: Self::Rate) -> (code: u8)
        ensures
            code == Self::rate_code(rate),
    ;
}

} // verus!
