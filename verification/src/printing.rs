//! Printability advice: the checks a ring must pass before it is worth
//! sending to a 3D printer. Advisory only; generation itself accepts
//! any validated parameters.

use vstd::prelude::*;

use crate::params::RingParameters;

verus! {

/// Why a ring is not fit for reliable 3D printing.
#[derive(Debug, Clone, Copy, PartialEq, Eq, Structural)]
pub enum PrintabilityIssue {
    /// The wall is thinner than the 1 mm a printer reliably produces.
    WallTooThin,
    /// The outer diameter exceeds a typical 300 mm build volume.
    TooLarge,
    /// The inner diameter is under the 5 mm of practical use.
    InnerTooSmall,
}

/// The first printability issue of the parameters, checked in order:
/// wall thickness (half the diameter difference) under 1 mm, outer
/// diameter over 300 mm, inner diameter under 5 mm. Dimensions are in
/// tenths of a millimetre.
pub open spec fn printability_issue(p: RingParameters) -> Option<PrintabilityIssue> {
    if p.outer_diameter - p.inner_diameter < 20 {
        Some(PrintabilityIssue::WallTooThin)
    } else if p.outer_diameter > 3000 {
        Some(PrintabilityIssue::TooLarge)
    } else if p.inner_diameter < 50 {
        Some(PrintabilityIssue::InnerTooSmall)
    } else {
        None
    }
}

impl PrintabilityIssue {
    /// A human-readable description of the issue.
    pub fn message(&self) -> (r: String)
        ensures
            *self == PrintabilityIssue::WallTooThin ==> r@
                == "Wall thickness is too thin for reliable 3D printing. Minimum recommended: 1.0mm"@,
            *self == PrintabilityIssue::TooLarge ==> r@
                == "Outer diameter exceeds typical 3D printer build volume"@,
            *self == PrintabilityIssue::InnerTooSmall ==> r@
                == "Inner diameter is too small for practical use"@,
    {
        match self {
            PrintabilityIssue::WallTooThin => String::from_str(
                "Wall thickness is too thin for reliable 3D printing. Minimum recommended: 1.0mm",
            ),
            PrintabilityIssue::TooLarge => String::from_str(
                "Outer diameter exceeds typical 3D printer build volume",
            ),
            PrintabilityIssue::InnerTooSmall => String::from_str(
                "Inner diameter is too small for practical use",
            ),
        }
    }
}

/// Validates ring parameters for 3D printing: succeeds exactly when no
/// printability issue holds, and otherwise reports the first issue in
/// checking order.
pub fn validate_for_printing(params: &RingParameters) -> (r: Result<(), PrintabilityIssue>)
    requires
        params.valid(),
    ensures
        match r {
            Ok(_) => printability_issue(*params) is None,
            Err(e) => printability_issue(*params) == Some(e),
        },
{
    if params.outer_diameter - params.inner_diameter < 20 {
        return Err(PrintabilityIssue::WallTooThin);
    }
    if params.outer_diameter > 3000 {
        return Err(PrintabilityIssue::TooLarge);
    }
    if params.inner_diameter < 50 {
        return Err(PrintabilityIssue::InnerTooSmall);
    }
    Ok(())
}

} // verus!
