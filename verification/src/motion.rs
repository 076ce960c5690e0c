use vstd::prelude::*;
use crate::events::{Effect, EffectView, Redraw, effect_views};
use crate::settings::Settings;

verus! {

/// Pointer movements closer together than this, in milliseconds, are not measured.
pub const MOTION_DEBOUNCE_MILLIS: u64 = 10;

/// Where the speed of a pointer movement is measured from.
#[derive(PartialEq, Eq, Structural, Clone, Copy, Debug)]
pub enum MotionOrigin {
    /// The centre of the display with this id.
    DisplayCentre(u32),
    /// The position of the last measured movement.
    PreviousPosition,
}

/// What a pointer movement does to the speed shown by mouse speed indicators.
#[derive(PartialEq, Eq, Structural, Clone, Copy, Debug)]
pub enum MotionStep {
    /// Too soon after the last measured movement, or earlier than it: nothing changes.
    Ignore,
    /// The speed is the distance from `origin` over `elapsed` milliseconds; the movement
    /// becomes the last measured one.
    Measure { elapsed: u64, origin: MotionOrigin },
}

/// The step for a movement at `now`, the last measured one being at `previous`: a movement
/// earlier than the last one, or less than the debounce time after it, is ignored; otherwise
/// it is measured from the chosen display's centre or from the last position, as the
/// settings say.
pub open spec fn motion_step(previous: u64, now: u64, from_center: bool, display: u32) -> MotionStep {
    if now < previous || now - previous < MOTION_DEBOUNCE_MILLIS {
        MotionStep::Ignore
    } else {
        MotionStep::Measure {
            elapsed: (now - previous) as u64,
            origin: if from_center {
                MotionOrigin::DisplayCentre(display)
            } else {
                MotionOrigin::PreviousPosition
            },
        }
    }
}

/// The effects of a step: a measured movement changes the speed shown, so the mouse speed
/// indicators are drawn again.
pub open spec fn motion_effects<F>(step: MotionStep) -> Seq<EffectView<F>> {
    if step is Ignore {
        Seq::empty()
    } else {
        seq![EffectView::<F>::Redraw(Redraw::MouseSpeedIndicators)]
    }
}

/// The time of the last measured pointer movement, in milliseconds.
pub struct MotionTracker {
    pub previous_time: u64,
}

impl MotionTracker {
    /// A tracker whose last measured movement is at `now` (the start of the application).
    pub fn new(now: u64) -> (t: MotionTracker)
        ensures
            t.previous_time == now,
    {
        MotionTracker { previous_time: now }
    }

    /// A pointer movement at `now`: decides whether and how it is measured (see
    /// `motion_step`), records its time when it is measured, and asks for the mouse speed
    /// indicators to be drawn again then (see `motion_effects`).
    pub fn moved<F>(&mut self, now: u64, settings: &Settings<F>) -> (r: (MotionStep, Vec<Effect<F>>))
        ensures
            r.0 == motion_step(
                old(self).previous_time,
                now,
                settings.mouse_from_center,
                settings.display_choice.id,
            ),
            effect_views(r.1@) == motion_effects::<F>(r.0),
            final(self).previous_time == if r.0 is Ignore {
                old(self).previous_time
            } else {
                now
            },
    {
        let mut effects: Vec<Effect<F>> = Vec::new();
        if now < self.previous_time || now - self.previous_time < MOTION_DEBOUNCE_MILLIS {
            assert(effect_views(effects@) =~= motion_effects::<F>(MotionStep::Ignore));
            return (MotionStep::Ignore, effects);
        }
        let elapsed = now - self.previous_time;
        let origin = if settings.mouse_from_center {
            MotionOrigin::DisplayCentre(settings.display_choice.id)
        } else {
            MotionOrigin::PreviousPosition
        };
        self.previous_time = now;
        effects.push(Effect::Redraw(Redraw::MouseSpeedIndicators));
        let step = MotionStep::Measure { elapsed, origin };
        assert(effect_views(effects@) =~= motion_effects::<F>(step));
        (step, effects)
    }
}

} // verus!
