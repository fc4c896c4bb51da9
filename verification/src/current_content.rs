//! The content scheduler: the state machine that plays the steps of a
//! content group in order, applies the repeat policy, and renders the
//! active step.
//!
//! All timestamps and durations are in milliseconds. A step's start time
//! advances by the previous step's duration rather than to the current
//! clock reading, so step boundaries do not drift with tick jitter.

use vstd::prelude::*;
use crate::{Pixel, ScreenBuffer};
use crate::animations::spec_rounded_div;
use crate::api::{Animation, Content, ContentDuration, ContentGroup, Repeat, SlideDirection,
    SlideSpeed, SlideType};
use crate::glyphs::{MAX_RENDERED_WIDTH, MAX_TEXT_LEN, RenderedGlyphs, UnknownGlyphBehavior,
    get_glyph_placement, spec_placement_glyphs, spec_placement_width};
use crate::render::{render, spec_render_grid};

verus! {

/// What one scheduler tick observed of the active content group.
#[derive(Debug, Clone, Copy, PartialEq, Eq, Structural)]
pub enum ContentState {
    StepStarted,
    StepIncomplete,
    Finished,
}

/// A slide speed the scheduler can divide by: a rate of zero dots per
/// second gives a step no finite length and is rejected at the door.
pub open spec fn spec_speed_valid(speed: SlideSpeed) -> bool {
    match speed {
        SlideSpeed::Duration(_) => true,
        SlideSpeed::Dps(dps) => dps >= 1,
    }
}

/// A content step the scheduler can play: its text within the
/// rasterizer's limit and its animation speed divisible.
pub open spec fn spec_content_valid(c: Content) -> bool {
    &&& c.text@.len() <= MAX_TEXT_LEN
    &&& match c.animation {
        Animation::Still { .. } => true,
        Animation::Slide { speed, .. } => spec_speed_valid(speed),
        Animation::SlideInBounds { speed, .. } => spec_speed_valid(speed),
    }
}

/// A content group the scheduler can play: at least one step, every step
/// valid.
pub open spec fn spec_group_valid(g: ContentGroup) -> bool {
    &&& g.contents@.len() > 0
    &&& forall|i: int| 0 <= i < g.contents@.len() ==> spec_content_valid(#[trigger] g.contents@[i])
}

/// The length of the path a slide animates over, in dots: the screen
/// height for vertical slides and half the screen-plus-content width for
/// horizontal ones, doubled for a slide that passes through; an in-bounds
/// slide covers only the content's excess over the screen.
pub open spec fn spec_animated_length(animation: Animation, w: int) -> int {
    match animation {
        Animation::Still { .. } => 0,
        Animation::Slide { slide_type, direction, .. } => match (slide_type, direction) {
            (
                SlideType::In | SlideType::Out,
                SlideDirection::TopToBottom | SlideDirection::BottomToTop,
            ) => 7,
            (
                SlideType::In | SlideType::Out,
                SlideDirection::LeftToRight | SlideDirection::RightToLeft,
            ) => (80 + w) / 2,
            (SlideType::InOut, SlideDirection::TopToBottom | SlideDirection::BottomToTop) => 14,
            (SlideType::InOut, SlideDirection::LeftToRight | SlideDirection::RightToLeft) => 80
                + w,
        },
        Animation::SlideInBounds { .. } => if w > 80 {
            w - 80
        } else {
            0
        },
    }
}

/// The time a slide takes in milliseconds: the configured duration, or
/// the animated length over the configured rate, rounded to the nearest
/// millisecond.
pub open spec fn spec_finite_animation_duration(speed: SlideSpeed, animated_length: int) -> int {
    match speed {
        SlideSpeed::Duration(ms) => ms as int,
        SlideSpeed::Dps(dps) => spec_rounded_div(animated_length * 1000, dps as int),
    }
}

/// How long a step of the given rendered width stays up: its configured
/// duration for still content (absent when it stays forever), and the
/// animation's full travel time for sliding content.
pub open spec fn spec_step_duration(content: Content, w: int) -> Option<u64> {
    match content.animation {
        Animation::Still { duration } => match duration {
            ContentDuration::Duration(ms) => Some(ms),
            ContentDuration::Forever => None,
        },
        Animation::Slide { speed, .. } => Some(
            spec_finite_animation_duration(speed, spec_animated_length(content.animation, w)) as u64,
        ),
        Animation::SlideInBounds { speed, .. } => Some(
            spec_finite_animation_duration(speed, spec_animated_length(content.animation, w)) as u64,
        ),
    }
}

/// Whether a step moves: every animation but a still one.
pub open spec fn spec_is_animated(c: Content) -> bool {
    !(c.animation is Still)
}

/// Computes the travel time of a slide from its speed, in milliseconds.
pub fn get_finite_animation_duration(speed: &SlideSpeed, animated_length: usize) -> (d: u64)
    requires
        spec_speed_valid(*speed),
        animated_length <= 0xffff_ffff,
    ensures
        d as int == spec_finite_animation_duration(*speed, animated_length as int),
{
    match speed {
        SlideSpeed::Duration(ms) => *ms,
        SlideSpeed::Dps(dps) => {
            let dps64 = *dps as u64;
            ((animated_length as u64) * 1000 + dps64 / 2) / dps64
        },
    }
}

/// Computes how long a step of the given rendered width stays up.
pub fn get_duration(content: &Content, rendered_width: usize) -> (d: Option<u64>)
    requires
        spec_content_valid(*content),
        rendered_width <= MAX_RENDERED_WIDTH,
    ensures
        d == spec_step_duration(*content, rendered_width as int),
{
    match &content.animation {
        Animation::Still { duration } => match duration {
            ContentDuration::Duration(ms) => Some(*ms),
            ContentDuration::Forever => None,
        },
        Animation::Slide { speed, direction, slide_type } => {
            let animated_length: usize = match (slide_type, direction) {
                (
                    SlideType::In | SlideType::Out,
                    SlideDirection::TopToBottom | SlideDirection::BottomToTop,
                ) => 7,
                (
                    SlideType::In | SlideType::Out,
                    SlideDirection::LeftToRight | SlideDirection::RightToLeft,
                ) => (80 + rendered_width) / 2,
                (SlideType::InOut, SlideDirection::TopToBottom | SlideDirection::BottomToTop) => 14,
                (SlideType::InOut, SlideDirection::LeftToRight | SlideDirection::RightToLeft) => 80
                    + rendered_width,
            };
            Some(get_finite_animation_duration(speed, animated_length))
        },
        Animation::SlideInBounds { direction: _, speed } => {
            let animated_length: usize = if rendered_width > 80 {
                rendered_width - 80
            } else {
                0
            };
            Some(get_finite_animation_duration(speed, animated_length))
        },
    }
}

/// The content group being played right now: the group, the active step,
/// its timing, and the step's cached rasterization.
#[derive(Debug)]
pub struct CurrentContent {
    pub content_group: ContentGroup,
    pub step: usize,
    pub step_start_time: u64,
    pub step_duration: Option<u64>,
    pub rendered_glyphs: RenderedGlyphs,
    pub behavior: UnknownGlyphBehavior,
    pub initialized: bool,
}

impl CurrentContent {
    /// The active step's content.
    pub open spec fn spec_content(&self) -> Content {
        self.content_group.contents@[self.step as int]
    }

    /// The scheduler's invariant: the group is playable, the step index
    /// valid, and once initialized the cached rasterization and duration
    /// are exactly those of the active step.
    pub open spec fn wf(&self) -> bool {
        &&& spec_group_valid(self.content_group)
        &&& (self.step as int) < self.content_group.contents@.len()
        &&& (!self.initialized ==> self.step == 0 && self.step_duration is None)
        &&& (self.initialized ==> {
            let c = self.spec_content();
            &&& self.rendered_glyphs.glyphs@ == spec_placement_glyphs(c.text@, self.behavior)
            &&& self.rendered_glyphs.width as int == spec_placement_width(c.text@, self.behavior)
            &&& self.rendered_glyphs.wf()
            &&& self.step_duration == spec_step_duration(c, self.rendered_glyphs.width as int)
        })
    }

    /// Takes ownership of a group to play; the first `update` call starts
    /// step zero.
    pub fn new(content_group: ContentGroup, behavior: UnknownGlyphBehavior, created_at: u64) -> (cc:
        CurrentContent)
        requires
            spec_group_valid(content_group),
        ensures
            cc.wf(),
            !cc.initialized,
            cc.step == 0,
            cc.step_start_time == created_at,
            cc.step_duration is None,
            cc.content_group == content_group,
            cc.behavior == behavior,
            cc.rendered_glyphs.glyphs@.len() == 0,
            cc.rendered_glyphs.width == 0,
    {
        CurrentContent {
            content_group,
            step: 0,
            step_start_time: created_at,
            step_duration: None,
            rendered_glyphs: RenderedGlyphs { glyphs: Vec::new(), width: 0 },
            behavior,
            initialized: false,
        }
    }

    /// The active step's content.
    pub fn content(&self) -> (c: &Content)
        requires
            self.wf(),
        ensures
            *c == self.spec_content(),
    {
        &self.content_group.contents[self.step]
    }

    /// Whether the active step moves, and so needs a fresh frame every
    /// tick.
    pub fn is_animated(&self) -> (r: bool)
        requires
            self.wf(),
        ensures
            r == spec_is_animated(self.spec_content()),
    {
        match self.content().animation {
            Animation::Still { .. } => false,
            _ => true,
        }
    }

    /// Rasterizes the active step and computes its duration; the step's
    /// start time moves forward by the previous step's duration.
    fn initialize_step(&mut self)
        requires
            spec_group_valid(old(self).content_group),
            (old(self).step as int) < old(self).content_group.contents@.len(),
            old(self).step_start_time + spec_old_duration_ms(*old(self)) <= u64::MAX,
        ensures
            final(self).content_group == old(self).content_group,
            final(self).step == old(self).step,
            final(self).behavior == old(self).behavior,
            final(self).initialized == old(self).initialized,
            final(self).step_start_time == old(self).step_start_time + spec_old_duration_ms(
                *old(self),
            ),
            final(self).rendered_glyphs.glyphs@ == spec_placement_glyphs(
                final(self).spec_content().text@,
                final(self).behavior,
            ),
            final(self).rendered_glyphs.width as int == spec_placement_width(
                final(self).spec_content().text@,
                final(self).behavior,
            ),
            final(self).rendered_glyphs.wf(),
            final(self).step_duration == spec_step_duration(
                final(self).spec_content(),
                final(self).rendered_glyphs.width as int,
            ),
    {
        let step = self.step;
        let rendered = get_glyph_placement(
            self.content_group.contents[step].text.as_str(),
            self.behavior,
        );
        let dur = get_duration(&self.content_group.contents[step], rendered.width);
        let prev: u64 = match self.step_duration {
            Some(d) => d,
            None => 0,
        };
        self.step_start_time = self.step_start_time + prev;
        self.rendered_glyphs = rendered;
        self.step_duration = dur;
    }

    /// Advances past the active step once its time is up: the next step
    /// if one remains, else a restart or the end per the repeat policy.
    fn step(&mut self) -> (result: ContentState)
        requires
            old(self).wf(),
            old(self).initialized,
            old(self).step_start_time + spec_old_duration_ms(*old(self)) <= u64::MAX,
        ensures
            final(self).wf(),
            final(self).initialized,
            final(self).behavior == old(self).behavior,
            final(self).content_group.contents == old(self).content_group.contents,
            result == spec_advance_result(*old(self)),
            final(self).step as int == spec_advance_step(*old(self)),
            final(self).content_group.repeat == spec_advance_repeat(*old(self)),
            final(self).step_start_time as int == spec_advance_start(*old(self)),
            result is Finished ==> *final(self) == *old(self),
    {
        let len = self.content_group.contents.len();
        if self.step + 1 < len {
            self.step = self.step + 1;
            self.initialize_step();
            return ContentState::StepStarted;
        }
        match self.content_group.repeat {
            Repeat::Once => ContentState::Finished,
            Repeat::Times(n) => {
                if n == 0 {
                    ContentState::Finished
                } else {
                    self.content_group.repeat = Repeat::Times(n - 1);
                    self.step = 0;
                    self.initialize_step();
                    ContentState::StepStarted
                }
            },
            Repeat::Forever => {
                self.step = 0;
                self.initialize_step();
                ContentState::StepStarted
            },
        }
    }

    /// One scheduler tick: starts step zero on the first call; afterwards
    /// advances once the active step's finite duration has elapsed, and
    /// otherwise reports the step incomplete.
    pub fn update(&mut self, current_time: u64) -> (result: ContentState)
        requires
            old(self).wf(),
            old(self).step_start_time <= current_time,
        ensures
            final(self).wf(),
            final(self).initialized,
            final(self).behavior == old(self).behavior,
            final(self).content_group.contents == old(self).content_group.contents,
            result == spec_update_result(*old(self), current_time),
            final(self).step as int == spec_update_step(*old(self), current_time),
            final(self).content_group.repeat == spec_update_repeat(*old(self), current_time),
            final(self).step_start_time as int == spec_update_start(*old(self), current_time),
            final(self).step_start_time <= current_time,
            result is Finished ==> *final(self) == *old(self),
    {
        if !self.initialized {
            self.initialize_step();
            self.initialized = true;
            return ContentState::StepStarted;
        }
        let advance = match self.step_duration {
            Some(d) => current_time - self.step_start_time >= d,
            None => false,
        };
        if advance {
            return self.step();
        }
        ContentState::StepIncomplete
    }

    /// Renders the active step's frame for the given moment.
    pub fn render(&self, current_time: u64) -> (buffer: ScreenBuffer)
        requires
            self.wf(),
            self.initialized,
            self.step_start_time <= current_time,
        ensures
            buffer.wf(),
            buffer@ == spec_cc_render(*self, current_time),
    {
        render(
            self.content(),
            &self.rendered_glyphs,
            self.step_duration,
            current_time - self.step_start_time,
        )
    }
}

/// The milliseconds the outgoing step was due to stay up: its duration,
/// or zero when it had none.
pub open spec fn spec_old_duration_ms(cc: CurrentContent) -> int {
    match cc.step_duration {
        Some(d) => d as int,
        None => 0,
    }
}

/// Whether an initialized scheduler's active step is over at `now`.
pub open spec fn spec_update_advances(cc: CurrentContent, now: u64) -> bool {
    cc.initialized && match cc.step_duration {
        Some(d) => now - cc.step_start_time >= d,
        None => false,
    }
}

/// What advancing past the last step of the group does, by the repeat
/// policy: finish, or start the group over.
pub open spec fn spec_advance_result(cc: CurrentContent) -> ContentState {
    if cc.step + 1 < cc.content_group.contents@.len() {
        ContentState::StepStarted
    } else {
        match cc.content_group.repeat {
            Repeat::Once => ContentState::Finished,
            Repeat::Times(n) => if n == 0 {
                ContentState::Finished
            } else {
                ContentState::StepStarted
            },
            Repeat::Forever => ContentState::StepStarted,
        }
    }
}

/// The step index after advancing: the next step, step zero on a
/// restart, or the last step when the group finishes.
pub open spec fn spec_advance_step(cc: CurrentContent) -> int {
    if cc.step + 1 < cc.content_group.contents@.len() {
        cc.step + 1
    } else if spec_advance_result(cc) is Finished {
        cc.step as int
    } else {
        0
    }
}

/// The repeat budget after advancing: one fewer remaining pass when a
/// counted repeat restarts the group.
pub open spec fn spec_advance_repeat(cc: CurrentContent) -> Repeat {
    if cc.step + 1 < cc.content_group.contents@.len() {
        cc.content_group.repeat
    } else {
        match cc.content_group.repeat {
            Repeat::Times(n) => if n == 0 {
                Repeat::Times(n)
            } else {
                Repeat::Times((n - 1) as usize)
            },
            _ => cc.content_group.repeat,
        }
    }
}

/// The step start time after advancing: forward by the outgoing step's
/// duration, or unchanged when the group finishes.
pub open spec fn spec_advance_start(cc: CurrentContent) -> int {
    if spec_advance_result(cc) is Finished {
        cc.step_start_time as int
    } else {
        cc.step_start_time + spec_old_duration_ms(cc)
    }
}

/// What `update` reports at `now`: the first call starts step zero; an
/// elapsed finite step advances; anything else is incomplete.
pub open spec fn spec_update_result(cc: CurrentContent, now: u64) -> ContentState {
    if !cc.initialized {
        ContentState::StepStarted
    } else if spec_update_advances(cc, now) {
        spec_advance_result(cc)
    } else {
        ContentState::StepIncomplete
    }
}

/// The step index after `update`.
pub open spec fn spec_update_step(cc: CurrentContent, now: u64) -> int {
    if !cc.initialized {
        0
    } else if spec_update_advances(cc, now) {
        spec_advance_step(cc)
    } else {
        cc.step as int
    }
}

/// The repeat budget after `update`.
pub open spec fn spec_update_repeat(cc: CurrentContent, now: u64) -> Repeat {
    if cc.initialized && spec_update_advances(cc, now) {
        spec_advance_repeat(cc)
    } else {
        cc.content_group.repeat
    }
}

/// The step start time after `update`.
pub open spec fn spec_update_start(cc: CurrentContent, now: u64) -> int {
    if !cc.initialized {
        cc.step_start_time as int
    } else if spec_update_advances(cc, now) {
        spec_advance_start(cc)
    } else {
        cc.step_start_time as int
    }
}

/// The frame the scheduler shows at `now`: the active step rendered at
/// its elapsed time.
pub open spec fn spec_cc_render(cc: CurrentContent, now: u64) -> Seq<Seq<Pixel>> {
    spec_render_grid(
        cc.spec_content().color,
        cc.spec_content().animation,
        cc.spec_content().align,
        cc.rendered_glyphs.glyphs@,
        cc.rendered_glyphs.width as int,
        cc.step_duration,
        (now - cc.step_start_time) as u64,
    )
}

/// The rendering law at the scheduler: one state and one moment determine
/// one frame, so rendering twice at the same elapsed time is idempotent.
pub proof fn lemma_cc_render_idempotent(
    cc: CurrentContent,
    now: u64,
    frame1: Seq<Seq<Pixel>>,
    frame2: Seq<Seq<Pixel>>,
)
    requires
        frame1 == spec_cc_render(cc, now),
        frame2 == spec_cc_render(cc, now),
    ensures
        frame1 == frame2,
{
}

} // verus!
