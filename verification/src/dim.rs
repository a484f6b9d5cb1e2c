//! The dim controller: how dark the overlay is for a given progress.

use vstd::prelude::*;

verus! {

/// The darkest that the overlay gets, in tenths of full black.
pub const DARKEST_TENTHS: u32 = 9;

/// The darkness of the overlay: the share `elapsed / total` of the
/// darkest that it gets. As a fraction of full black that is
/// `numerator() / denominator()`.
#[derive(Clone, Copy, Debug, PartialEq, Eq, Structural)]
pub struct Opacity {
    pub elapsed: u32,
    pub total: u32,
}

impl Opacity {
    /// The darkness as a fraction of full black, above the line.
    pub open spec fn numerator(self) -> nat {
        (DARKEST_TENTHS * self.elapsed) as nat
    }

    /// The darkness as a fraction of full black, below the line.
    pub open spec fn denominator(self) -> nat {
        (10 * self.total) as nat
    }

    /// Whether this is a fraction between nought and nine tenths, the
    /// darkest that the overlay ever gets.
    pub open spec fn wf(self) -> bool {
        self.denominator() > 0 && 10 * self.numerator() <= DARKEST_TENTHS * self.denominator()
    }

    /// Whether this opacity is no darker than `other`.
    pub open spec fn no_darker_than(self, other: Opacity) -> bool {
        self.numerator() * other.denominator() <= other.numerator() * self.denominator()
    }

    /// Whether the overlay is fully clear.
    pub open spec fn is_clear(self) -> bool {
        self.numerator() == 0
    }

    /// The fully clear overlay.
    pub open spec fn clear_spec() -> Opacity {
        Opacity { elapsed: 0, total: 1 }
    }

    /// The fully clear overlay.
    pub fn clear() -> (opacity: Opacity)
        ensures
            opacity == Opacity::clear_spec(),
            opacity.wf(),
            opacity.is_clear(),
    {
        Opacity { elapsed: 0, total: 1 }
    }
}

/// The opacity when `remaining` of `total` seconds are left: nine tenths
/// of the share of the time that has gone by.
pub open spec fn opacity_at(total: nat, remaining: nat) -> Opacity
    recommends
        0 < total <= u32::MAX,
        remaining <= total,
{
    Opacity { elapsed: (total - remaining) as u32, total: total as u32 }
}

/// The opacity when `remaining` of `total` seconds are left.
pub fn overlay_opacity(total: u32, remaining: u32) -> (opacity: Opacity)
    requires
        0 < total,
        remaining <= total,
    ensures
        opacity == opacity_at(total as nat, remaining as nat),
        opacity.numerator() == 9 * (total - remaining),
        opacity.denominator() == 10 * total,
        opacity.wf(),
{
    Opacity { elapsed: total - remaining, total: total }
}

/// The overlay never lightens while time runs down: with less time left
/// it is at least as dark, and it never passes nine tenths.
pub proof fn lemma_opacity_grows(total: nat, earlier: nat, later: nat)
    requires
        0 < total <= u32::MAX,
        later <= earlier <= total,
    ensures
        opacity_at(total, earlier).wf(),
        opacity_at(total, later).wf(),
        opacity_at(total, earlier).no_darker_than(opacity_at(total, later)),
        opacity_at(total, total).is_clear(),
{
    let a = 9 * (total - earlier);
    let b = 9 * (total - later);
    let d = 10 * total;
    assert(a * d <= b * d) by (nonlinear_arith)
        requires
            a <= b,
            0 <= d,
    ;
}

} // verus!
