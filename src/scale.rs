//! The visual scale a width calls for, under two strategies, and when it
//! has to be handed to the host again. Scales are in hundredths: 100 is 1.0.
use vstd::prelude::*;
use crate::layout::{STACK_BREAKPOINT, WIDE_BREAKPOINT};

verus! {

/// From this width on the top scale level applies.
pub const LARGE_BREAKPOINT: u32 = 1280;

/// The scale the host's zoom is held at while the style strategy is active.
pub const NEUTRAL_PERCENT: u32 = 100;

/// The scale recorded after a change of strategy: no level equals it, so
/// the next frame always hands the new scale to the host.
pub const RESET_PERCENT: u32 = 0;

/// A change of scale by at most this much is not worth a host update.
pub const EPSILON_PERCENT: u32 = 1;

/// How the visual scale is applied.
#[derive(Clone, Copy, Debug, PartialEq, Eq, Structural)]
pub enum ScalingMode {
    /// The host's global render zoom is set to the scale.
    Zoom,
    /// The baseline style's spacing and font sizes are multiplied by the
    /// scale, with the zoom held neutral.
    Style,
}

impl Default for ScalingMode {
    fn default() -> (r: ScalingMode)
        ensures
            r == ScalingMode::Zoom,
    {
        ScalingMode::Zoom
    }
}

/// What the host is to do with its scale on this frame.
#[derive(Clone, Copy, Debug, PartialEq, Eq, Structural)]
pub enum ScaleDirective {
    /// The scale in force is close enough: nothing to do.
    Keep,
    /// Set the global zoom to this many hundredths.
    SetZoom(u32),
    /// Install the baseline style scaled by this many hundredths, and set
    /// the global zoom to neutral.
    ApplyStyle(u32),
}

pub open spec fn spec_zoom_percent(width: u32) -> u32 {
    if width < STACK_BREAKPOINT {
        85
    } else if width < WIDE_BREAKPOINT {
        100
    } else if width < LARGE_BREAKPOINT {
        125
    } else {
        150
    }
}

pub open spec fn spec_style_percent(width: u32) -> u32 {
    if width < STACK_BREAKPOINT {
        95
    } else if width < WIDE_BREAKPOINT {
        115
    } else if width < LARGE_BREAKPOINT {
        135
    } else {
        160
    }
}

pub open spec fn spec_scale_percent(width: u32, mode: ScalingMode) -> u32 {
    match mode {
        ScalingMode::Zoom => spec_zoom_percent(width),
        ScalingMode::Style => spec_style_percent(width),
    }
}

/// The scale in force is further than the tolerance from the one wanted.
pub open spec fn spec_needs_reapply(current: u32, desired: u32) -> bool {
    current > desired + EPSILON_PERCENT || desired > current + EPSILON_PERCENT
}

/// The scale recorded after a frame: the wanted one where it had to be
/// reapplied, else the one in force.
pub open spec fn spec_next_scale(current: u32, width: u32, mode: ScalingMode) -> u32 {
    let desired = spec_scale_percent(width, mode);
    if spec_needs_reapply(current, desired) {
        desired
    } else {
        current
    }
}

pub open spec fn spec_scale_directive(current: u32, width: u32, mode: ScalingMode) -> ScaleDirective {
    let desired = spec_scale_percent(width, mode);
    if !spec_needs_reapply(current, desired) {
        ScaleDirective::Keep
    } else {
        match mode {
            ScalingMode::Zoom => ScaleDirective::SetZoom(desired),
            ScalingMode::Style => ScaleDirective::ApplyStyle(desired),
        }
    }
}

/// The scale, in hundredths, that `width` calls for under `mode`.
pub fn scale_percent(width: u32, mode: ScalingMode) -> (r: u32)
    ensures
        r == spec_scale_percent(width, mode),
{
    match mode {
        ScalingMode::Zoom => {
            if width < STACK_BREAKPOINT {
                85
            } else if width < WIDE_BREAKPOINT {
                100
            } else if width < LARGE_BREAKPOINT {
                125
            } else {
                150
            }
        },
        ScalingMode::Style => {
            if width < STACK_BREAKPOINT {
                95
            } else if width < WIDE_BREAKPOINT {
                115
            } else if width < LARGE_BREAKPOINT {
                135
            } else {
                160
            }
        },
    }
}

/// Whether a scale of `current` has to be replaced by `desired`: they
/// differ by more than the tolerance.
pub fn needs_reapply(current: u32, desired: u32) -> (r: bool)
    ensures
        r == spec_needs_reapply(current, desired),
{
    if current > desired {
        current - desired > EPSILON_PERCENT
    } else {
        desired - current > EPSILON_PERCENT
    }
}

/// What to hand the host on a frame of `width` under `mode` while the scale
/// in force is `current`.
pub fn scale_directive(current: u32, width: u32, mode: ScalingMode) -> (r: ScaleDirective)
    ensures
        r == spec_scale_directive(current, width, mode),
{
    let desired = scale_percent(width, mode);
    if !needs_reapply(current, desired) {
        ScaleDirective::Keep
    } else {
        match mode {
            ScalingMode::Zoom => ScaleDirective::SetZoom(desired),
            ScalingMode::Style => ScaleDirective::ApplyStyle(desired),
        }
    }
}

/// A second frame at the same width and strategy changes nothing: the
/// recorded scale stays and the host is asked for nothing.
pub proof fn lemma_frame_twice_settles(current: u32, width: u32, mode: ScalingMode)
    ensures
        spec_next_scale(spec_next_scale(current, width, mode), width, mode) == spec_next_scale(
            current,
            width,
            mode,
        ),
        spec_scale_directive(spec_next_scale(current, width, mode), width, mode)
            == ScaleDirective::Keep,
{
}

/// The scale handed to the host depends on the width and strategy alone,
/// never on the scale in force before: the style is always rebuilt from the
/// baseline by the same factor, so rescaling never compounds.
pub proof fn lemma_applied_scale_is_history_free(
    current_a: u32,
    current_b: u32,
    width: u32,
    mode: ScalingMode,
)
    ensures
        spec_scale_directive(current_a, width, mode) != ScaleDirective::Keep
            ==> spec_scale_directive(current_a, width, mode) == (match mode {
            ScalingMode::Zoom => ScaleDirective::SetZoom(spec_scale_percent(width, mode)),
            ScalingMode::Style => ScaleDirective::ApplyStyle(spec_scale_percent(width, mode)),
        }),
        spec_scale_directive(current_a, width, mode) != ScaleDirective::Keep
            && spec_scale_directive(current_b, width, mode) != ScaleDirective::Keep
            ==> spec_scale_directive(current_a, width, mode) == spec_scale_directive(
            current_b,
            width,
            mode,
        ),
{
}

/// After any frame the recorded scale is within the tolerance of what the
/// width calls for, whatever was in force before: nothing drifts.
pub proof fn lemma_frame_lands_near_target(current: u32, width: u32, mode: ScalingMode)
    ensures
        !spec_needs_reapply(spec_next_scale(current, width, mode), spec_scale_percent(width, mode)),
{
}

/// After the strategy changes, the next frame always hands the scale to the
/// host, whatever the width.
pub proof fn lemma_reset_forces_reapply(width: u32, mode: ScalingMode)
    ensures
        spec_scale_directive(RESET_PERCENT, width, mode) != ScaleDirective::Keep,
        spec_next_scale(RESET_PERCENT, width, mode) == spec_scale_percent(width, mode),
{
}

} // verus!
