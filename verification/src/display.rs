//! The three-way display mode and the rotation-speed scalar.

use vstd::prelude::*;

verus! {

/// Codes of the display-mode cycle: 0 draws shape and wireframe, 1 the shape
/// only, 2 the wireframe only. Stored as the small integer the toggle
/// arithmetic runs on; always below `MODE_COUNT`.
pub const MODE_BOTH: u32 = 0;

pub const MODE_SHAPE_ONLY: u32 = 1;

pub const MODE_WIREFRAME_ONLY: u32 = 2;

/// Number of display modes in the cycle.
pub const MODE_COUNT: u32 = 3;

/// The mode the toggle key moves to from `mode`: the next code in the cycle.
pub open spec fn spec_toggled(mode: u32) -> u32 {
    ((mode + 1) as u32) % MODE_COUNT
}

/// Advances the display mode by one step of the cycle.
pub fn toggled(mode: u32) -> (r: u32)
    requires
        mode < MODE_COUNT,
    ensures
        r == spec_toggled(mode),
        r < MODE_COUNT,
{
    (mode + 1) % MODE_COUNT
}

/// Toggling the display mode three times comes back to where it started:
/// the cycle has period three.
pub proof fn lemma_toggle_period_three(mode: u32)
    requires
        mode < MODE_COUNT,
    ensures
        spec_toggled(spec_toggled(spec_toggled(mode))) == mode,
{
}

/// The rotation speed one decrease step leaves behind: one tenth less,
/// clamped at zero. The speed is stored as a count of tenths of a unit.
pub open spec fn spec_speed_decreased(tenths: u32) -> u32 {
    if tenths >= 1 {
        (tenths - 1) as u32
    } else {
        0
    }
}

/// The rotation speed one increase step leaves behind: one tenth more,
/// held at the top of the machine range rather than wrapping.
pub open spec fn spec_speed_increased(tenths: u32) -> u32 {
    if tenths < u32::MAX {
        (tenths + 1) as u32
    } else {
        u32::MAX
    }
}

/// The speed left after `n` consecutive decrease steps from `tenths`.
pub open spec fn spec_speed_after_decreases(tenths: u32, n: nat) -> u32
    decreases n,
{
    if n == 0 {
        tenths
    } else {
        spec_speed_decreased(spec_speed_after_decreases(tenths, (n - 1) as nat))
    }
}

/// Repeated decrease steps are monotonically clamped: however many are
/// applied, the stored speed is exactly the starting speed less one tenth a
/// step until it reaches zero, and it never goes below zero.
pub proof fn lemma_speed_decrease_clamped(tenths: u32, n: nat)
    ensures
        spec_speed_after_decreases(tenths, n) == if n >= tenths {
            0u32
        } else {
            (tenths - n) as u32
        },
        spec_speed_after_decreases(tenths, n) <= tenths,
    decreases n,
{
    if n > 0 {
        lemma_speed_decrease_clamped(tenths, (n - 1) as nat);
    }
}

} // verus!
