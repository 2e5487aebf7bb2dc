//! Physical material properties of parts.
//!
//! A part either uses the engine's default material behaviour or carries a
//! full set of custom coefficients. The coefficients are floats, carried as
//! IEEE 754 bit patterns; the library moves them verbatim.
use vstd::prelude::*;

verus! {

/// Custom physics coefficients, each a float bit pattern.
#[derive(Debug, Clone, Copy, PartialEq, Eq, Structural)]
pub struct CustomPhysicalProperties {
    pub density: u32,
    pub friction: u32,
    pub elasticity: u32,
    pub friction_weight: u32,
    pub elasticity_weight: u32,
}

/// The physical behaviour of a part: the engine default, or custom
/// coefficients. The default is an explicit variant here, not a hidden
/// state of the custom form.
#[derive(Debug, Clone, Copy, PartialEq, Eq, Structural)]
pub enum PhysicalProperties {
    Default,
    Custom(CustomPhysicalProperties),
}

impl From<CustomPhysicalProperties> for PhysicalProperties {
    fn from(value: CustomPhysicalProperties) -> Self {
        Self::Custom(value)
    }
}

impl vstd::std_specs::convert::FromSpecImpl<CustomPhysicalProperties> for PhysicalProperties {
    open spec fn obeys_from_spec() -> bool {
        true
    }

    open spec fn from_spec(value: CustomPhysicalProperties) -> Self {
        PhysicalProperties::Custom(value)
    }
}

} // verus!
