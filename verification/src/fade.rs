//! The volume fade over the last tenth of a session.

use vstd::prelude::*;

verus! {

/// The length of the fade: a tenth of the session, rounded down.
pub open spec fn fade_span(total: nat) -> nat {
    total / 10
}

/// The volume in percent when `remaining` of `total` seconds are left,
/// where the fade applies: the share of the fade that is still to come,
/// rounded to the nearest percent (a half rounds up). `None` outside the
/// fade, and for sessions too short to have one.
pub open spec fn fade_volume_spec(total: nat, remaining: nat) -> Option<nat> {
    let span = fade_span(total);
    if span > 0 && remaining <= span {
        Some((200 * remaining + span) / (2 * span))
    } else {
        None
    }
}

/// The volume in percent when `remaining` of `total` seconds are left,
/// where the fade applies.
pub fn fade_volume(total: u32, remaining: u32) -> (volume: Option<u32>)
    ensures
        volume is Some == fade_volume_spec(total as nat, remaining as nat) is Some,
        volume matches Some(percent) ==> fade_volume_spec(total as nat, remaining as nat) == Some(
            percent as nat,
        ) && percent <= 100,
{
    let span: u64 = (total / 10) as u64;
    if span > 0 && remaining as u64 <= span {
        let left: u64 = remaining as u64;
        proof {
            lemma_fade_bounds(span as nat, left as nat);
        }
        let percent: u64 = (200 * left + span) / (2 * span);
        Some(percent as u32)
    } else {
        None
    }
}

/// Within the fade the volume stays between nought and a hundred, is a
/// hundred at the start of the fade and nought at its end.
proof fn lemma_fade_bounds(span: nat, remaining: nat)
    requires
        0 < span,
        remaining <= span,
    ensures
        (200 * remaining + span) / (2 * span) <= 100,
        remaining == span ==> (200 * remaining + span) / (2 * span) == 100,
        remaining == 0 ==> (200 * remaining + span) / (2 * span) == 0,
{
    let n = 200 * remaining + span;
    let d = 2 * span;
    assert(n / d <= 100) by (nonlinear_arith)
        requires
            n < 101 * d,
            0 < d,
            0 <= n,
    ;
    if remaining == span {
        assert(n / d == 100) by (nonlinear_arith)
            requires
                100 * d <= n < 101 * d,
                0 < d,
        ;
    }
    if remaining == 0 {
        assert(n / d == 0) by (nonlinear_arith)
            requires
                0 <= n < d,
        ;
    }
}

/// The fade covers exactly the last tenth of the session. It begins at
/// full volume, ends in silence and never leaves the range of the
/// player.
pub proof fn law_fade_range(total: nat, remaining: nat)
    ensures
        fade_volume_spec(total, remaining) is Some <==> 0 < fade_span(total) && remaining
            <= fade_span(total),
        fade_volume_spec(total, remaining) matches Some(percent) ==> percent <= 100,
        0 < fade_span(total) ==> fade_volume_spec(total, fade_span(total)) == Some(100nat),
        0 < fade_span(total) ==> fade_volume_spec(total, 0) == Some(0nat),
{
    let span = fade_span(total);
    if 0 < span {
        lemma_fade_bounds(span, span);
        lemma_fade_bounds(span, 0);
        if remaining <= span {
            lemma_fade_bounds(span, remaining);
        }
    }
}

/// The volume never rises while the fade runs down.
pub proof fn law_fade_falls(total: nat, earlier: nat, later: nat)
    requires
        later <= earlier <= fade_span(total),
        0 < fade_span(total),
    ensures
        fade_volume_spec(total, later)->0 <= fade_volume_spec(total, earlier)->0,
{
    let span = fade_span(total);
    let a = 200 * later + span;
    let b = 200 * earlier + span;
    let d = 2 * span;
    assert(a / d <= b / d) by (nonlinear_arith)
        requires
            0 <= a <= b,
            0 < d,
    ;
}

} // verus!
