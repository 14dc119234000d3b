//! The form's state, the per-frame layout and scale decisions, and the
//! changes that user input makes.
use vstd::prelude::*;
use eframe::egui::Style;
use crate::layout::{
    column_count, layout_mode, scale_bucket, spec_column_count, spec_layout_mode,
    spec_scale_bucket, LayoutMode, ScaleBucket,
};
use crate::scale::{
    scale_directive, scale_percent, spec_needs_reapply, spec_next_scale, spec_scale_directive,
    spec_scale_percent, ScaleDirective, ScalingMode, NEUTRAL_PERCENT, RESET_PERCENT,
};
use crate::text::{greeting, greeting_text};

verus! {

/// The host toolkit's visual style, carried as an opaque value: the
/// baseline from which scaled styles are rebuilt.
#[verifier::external_type_specification]
#[verifier::external_body]
pub struct ExStyle(Style);

/// The largest age the form accepts.
pub const MAX_AGE: u32 = 120;

/// Everything the host needs to lay out one frame.
#[derive(Clone, Copy, Debug, PartialEq, Eq, Structural)]
pub struct FramePlan {
    pub layout: LayoutMode,
    pub columns: usize,
    pub bucket: ScaleBucket,
    /// The scale the width calls for, in hundredths.
    pub scale_percent: u32,
    pub directive: ScaleDirective,
}

/// The plan for a frame of `width` under `mode` while the scale in force
/// is `current`.
pub open spec fn frame_plan(current: u32, width: u32, mode: ScalingMode) -> FramePlan {
    FramePlan {
        layout: spec_layout_mode(width),
        columns: spec_column_count(width),
        bucket: spec_scale_bucket(width),
        scale_percent: spec_scale_percent(width, mode),
        directive: spec_scale_directive(current, width, mode),
    }
}

/// The single view-model of the window.
pub struct DemoApp {
    pub name: String,
    /// Kept in `0..=120` by `set_age`.
    pub age: u32,
    pub counter: i32,
    pub show_confirmation_dialog: bool,
    /// The scale last handed to the host, in hundredths.
    pub zoom_percent: u32,
    pub scaling_mode: ScalingMode,
    /// The host's style as first seen, before any scaling.
    pub base_style: Option<Style>,
}

impl DemoApp {
    /// The form's fields (name, age, counter, dialog) as in `other`.
    pub open spec fn same_form(&self, other: &DemoApp) -> bool {
        &&& self.name@ == other.name@
        &&& self.age == other.age
        &&& self.counter == other.counter
        &&& self.show_confirmation_dialog == other.show_confirmation_dialog
    }

    /// The display fields (scale, strategy, baseline) as in `other`.
    pub open spec fn same_display(&self, other: &DemoApp) -> bool {
        &&& self.zoom_percent == other.zoom_percent
        &&& self.scaling_mode == other.scaling_mode
        &&& self.base_style == other.base_style
    }

    /// Empty name, age 0, counter 0, dialog hidden, zoom strategy at scale
    /// 1.0, no baseline yet.
    pub fn new() -> (r: DemoApp)
        ensures
            r.name@ == Seq::<char>::empty(),
            r.age == 0,
            r.counter == 0,
            !r.show_confirmation_dialog,
            r.zoom_percent == NEUTRAL_PERCENT,
            r.scaling_mode == ScalingMode::Zoom,
            r.base_style is None,
    {
        DemoApp {
            name: String::new(),
            age: 0,
            counter: 0,
            show_confirmation_dialog: false,
            zoom_percent: NEUTRAL_PERCENT,
            scaling_mode: ScalingMode::default(),
            base_style: None,
        }
    }

    /// Records `style` as the baseline unless one was recorded before: the
    /// baseline is taken once and never replaced.
    pub fn capture_baseline(&mut self, style: Style)
        ensures
            old(self).base_style is None ==> final(self).base_style == Some(style),
            old(self).base_style is Some ==> final(self).base_style == old(self).base_style,
            final(self).same_form(old(self)),
            final(self).zoom_percent == old(self).zoom_percent,
            final(self).scaling_mode == old(self).scaling_mode,
    {
        if self.base_style.is_none() {
            self.base_style = Some(style);
        }
    }

    /// Decides the frame for `width`: layout, columns and scale follow from
    /// the width and strategy alone; the host is asked to change its scale
    /// only when the one in force is off by more than the tolerance, and the
    /// scale handed over is recorded.
    pub fn plan_frame(&mut self, width: u32) -> (r: FramePlan)
        ensures
            r == frame_plan(old(self).zoom_percent, width, old(self).scaling_mode),
            final(self).zoom_percent == spec_next_scale(
                old(self).zoom_percent,
                width,
                old(self).scaling_mode,
            ),
            final(self).same_form(old(self)),
            final(self).scaling_mode == old(self).scaling_mode,
            final(self).base_style == old(self).base_style,
    {
        let mode = self.scaling_mode;
        let desired = scale_percent(width, mode);
        let directive = scale_directive(self.zoom_percent, width, mode);
        if directive != ScaleDirective::Keep {
            self.zoom_percent = desired;
        }
        FramePlan {
            layout: layout_mode(width),
            columns: column_count(width),
            bucket: scale_bucket(width),
            scale_percent: desired,
            directive,
        }
    }

    /// Switches the scaling strategy. A real change resets the recorded
    /// scale so that the next frame hands the new scale to the host.
    pub fn set_scaling_mode(&mut self, mode: ScalingMode)
        ensures
            final(self).scaling_mode == mode,
            final(self).zoom_percent == (if mode == old(self).scaling_mode {
                old(self).zoom_percent
            } else {
                RESET_PERCENT
            }),
            final(self).same_form(old(self)),
            final(self).base_style == old(self).base_style,
    {
        if mode != self.scaling_mode {
            self.scaling_mode = mode;
            self.zoom_percent = RESET_PERCENT;
        }
    }

    /// The name field now holds `text`, verbatim.
    pub fn set_name(&mut self, text: String)
        ensures
            final(self).name@ == text@,
            final(self).age == old(self).age,
            final(self).counter == old(self).counter,
            final(self).show_confirmation_dialog == old(self).show_confirmation_dialog,
            final(self).same_display(old(self)),
    {
        self.name = text;
    }

    /// The age field now holds `age`, clamped to `0..=120`.
    pub fn set_age(&mut self, age: u32)
        ensures
            final(self).age == (if age > MAX_AGE {
                MAX_AGE
            } else {
                age
            }),
            final(self).name@ == old(self).name@,
            final(self).counter == old(self).counter,
            final(self).show_confirmation_dialog == old(self).show_confirmation_dialog,
            final(self).same_display(old(self)),
    {
        self.age = if age > MAX_AGE {
            MAX_AGE
        } else {
            age
        };
    }

    /// The "Increment" button: the counter goes up by one.
    pub fn increment(&mut self)
        requires
            old(self).counter < i32::MAX,
        ensures
            final(self).counter == old(self).counter + 1,
            final(self).name@ == old(self).name@,
            final(self).age == old(self).age,
            final(self).show_confirmation_dialog == old(self).show_confirmation_dialog,
            final(self).same_display(old(self)),
    {
        self.counter = self.counter + 1;
    }

    /// The "Decrement" button: the counter goes down by one.
    pub fn decrement(&mut self)
        requires
            old(self).counter > i32::MIN,
        ensures
            final(self).counter == old(self).counter - 1,
            final(self).name@ == old(self).name@,
            final(self).age == old(self).age,
            final(self).show_confirmation_dialog == old(self).show_confirmation_dialog,
            final(self).same_display(old(self)),
    {
        self.counter = self.counter - 1;
    }

    /// The "Show Dialog" button: the confirmation dialog opens.
    pub fn show_dialog(&mut self)
        ensures
            final(self).show_confirmation_dialog,
            final(self).name@ == old(self).name@,
            final(self).age == old(self).age,
            final(self).counter == old(self).counter,
            final(self).same_display(old(self)),
    {
        self.show_confirmation_dialog = true;
    }

    /// The dialog's "Yes" button: the dialog closes; the answer is not kept.
    pub fn answer_yes(&mut self)
        ensures
            !final(self).show_confirmation_dialog,
            final(self).name@ == old(self).name@,
            final(self).age == old(self).age,
            final(self).counter == old(self).counter,
            final(self).same_display(old(self)),
    {
        self.show_confirmation_dialog = false;
    }

    /// The dialog's "No" button: the dialog closes; the answer is not kept.
    pub fn answer_no(&mut self)
        ensures
            !final(self).show_confirmation_dialog,
            final(self).name@ == old(self).name@,
            final(self).age == old(self).age,
            final(self).counter == old(self).counter,
            final(self).same_display(old(self)),
    {
        self.show_confirmation_dialog = false;
    }

    /// "Hello, NAME! You are AGE years old." for the current form.
    pub fn greeting(&self) -> (r: String)
        ensures
            r@ == greeting_text(self.name@, self.age as nat),
    {
        greeting(self.name.as_str(), self.age)
    }
}

impl Default for DemoApp {
    /// Like `new`, but with no scale recorded yet, so that the first frame
    /// always hands its scale to the host.
    fn default() -> (r: DemoApp)
        ensures
            r.name@ == Seq::<char>::empty(),
            r.age == 0,
            r.counter == 0,
            !r.show_confirmation_dialog,
            r.zoom_percent == RESET_PERCENT,
            r.scaling_mode == ScalingMode::Zoom,
            r.base_style is None,
    {
        DemoApp {
            name: String::new(),
            age: 0,
            counter: 0,
            show_confirmation_dialog: false,
            zoom_percent: RESET_PERCENT,
            scaling_mode: ScalingMode::default(),
            base_style: None,
        }
    }
}

/// Resizing to another width and back restores the layout, the column
/// count and the wanted scale, whatever the scale in force at the start,
/// and the recorded scale ends within the tolerance of the same target.
pub proof fn lemma_resize_round_trip(current: u32, mode: ScalingMode, first: u32, second: u32)
    ensures
        ({
            let z1 = spec_next_scale(current, first, mode);
            let z2 = spec_next_scale(z1, second, mode);
            let p1 = frame_plan(current, first, mode);
            let p3 = frame_plan(z2, first, mode);
            &&& p3.layout == p1.layout
            &&& p3.columns == p1.columns
            &&& p3.bucket == p1.bucket
            &&& p3.scale_percent == p1.scale_percent
        }),
        !spec_needs_reapply(
            spec_next_scale(
                spec_next_scale(spec_next_scale(current, first, mode), second, mode),
                first,
                mode,
            ),
            spec_scale_percent(first, mode),
        ),
{
}

} // verus!
