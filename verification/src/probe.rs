//! Scalar observables of the system.

use vstd::prelude::*;

verus! {

/// The probe of total mechanical energy: translational kinetic energy,
/// rotational kinetic energy and potential energy.
#[derive(Clone, Copy, Debug, PartialEq, Eq, Structural)]
pub struct EnergyProbe;

impl EnergyProbe {
    /// The name under which the probe reports.
    pub fn name(&self) -> (n: &'static str)
        ensures
            n@ == "Total Energy"@,
    {
        "Total Energy"
    }
}

} // verus!
