//! The pipeline's decision core: command intake, queue management, the
//! per-tick render decision, and frame pacing.
//!
//! The surrounding process runs the loops and moves values over its
//! channels; everything it decides comes from here. A command is either
//! applied whole or rejected whole, and a frame is handed out only when
//! the active step just started, or moves, or resending unchanged frames
//! was asked for.

use vstd::prelude::*;
use vstd::string::StrSliceExecFns;
use crate::{Pixel, ScreenBuffer};
use crate::api::{Animation, Color, Command, Content, ContentDuration, ContentGroup, SlideSpeed};
use crate::current_content::{CurrentContent, spec_content_valid, spec_group_valid, spec_is_animated,
    spec_speed_valid, spec_step_duration, spec_update_repeat, spec_update_result, spec_update_start,
    spec_update_step};
use crate::glyphs::{MAX_TEXT_LEN, UnknownGlyphBehavior, get_glyph_placement, spec_placement_glyphs,
    spec_placement_width};
use crate::render::{render, spec_render_grid};

verus! {

/// The fixed frame period of the render loop, in milliseconds.
pub const RENDER_FRAME_PERIOD_MS: u64 = 42;

/// Why a command was rejected: each variant names the first offending
/// property found in its content group.
#[derive(Debug, Clone, Copy, PartialEq, Eq, Structural)]
pub enum ContentError {
    EmptyContents,
    TextTooLong,
    ZeroDps,
}

/// What one scheduler tick produced for the driver.
#[derive(Debug)]
pub struct RenderResult {
    pub buffer: Option<ScreenBuffer>,
    pub content_state: ContentState,
    pub buffer_state: ScreenBufferState,
}

/// Whether the tick left an active content group behind.
#[derive(Debug, Clone, Copy, PartialEq, Eq, Structural)]
pub enum ContentState {
    Incomplete,
    Complete,
}

/// Whether the tick produced a fresh frame to hand to the driver.
#[derive(Debug, Clone, Copy, PartialEq, Eq, Structural)]
pub enum ScreenBufferState {
    Updated,
    NotUpdated,
}

/// The first fault of a content step, if any: an overlong text, then an
/// undivisible speed.
pub open spec fn spec_content_error(c: Content) -> Option<ContentError> {
    if c.text@.len() > MAX_TEXT_LEN {
        Some(ContentError::TextTooLong)
    } else {
        match c.animation {
            Animation::Still { .. } => None,
            Animation::Slide { speed, .. } => if spec_speed_valid(speed) {
                None
            } else {
                Some(ContentError::ZeroDps)
            },
            Animation::SlideInBounds { speed, .. } => if spec_speed_valid(speed) {
                None
            } else {
                Some(ContentError::ZeroDps)
            },
        }
    }
}

/// The first fault among a list of steps, if any.
pub open spec fn spec_contents_error(cs: Seq<Content>) -> Option<ContentError>
    decreases cs.len(),
{
    if cs.len() == 0 {
        None
    } else {
        match spec_content_error(cs[0]) {
            Some(e) => Some(e),
            None => spec_contents_error(cs.skip(1)),
        }
    }
}

/// The first fault of a content group, if any: an empty group, then the
/// first faulty step.
pub open spec fn spec_group_error(g: ContentGroup) -> Option<ContentError> {
    if g.contents@.len() == 0 {
        Some(ContentError::EmptyContents)
    } else {
        spec_contents_error(g.contents@)
    }
}

/// A list of steps is fault-free exactly when every step is valid.
proof fn lemma_contents_error_none(cs: Seq<Content>)
    ensures
        spec_contents_error(cs) is None <==> (forall|i: int|
            0 <= i < cs.len() ==> spec_content_valid(#[trigger] cs[i])),
    decreases cs.len(),
{
    if cs.len() > 0 {
        lemma_contents_error_none(cs.skip(1));
        if spec_contents_error(cs) is None {
            assert forall|i: int| 0 <= i < cs.len() implies spec_content_valid(#[trigger] cs[i]) by {
                if i > 0 {
                    assert(cs.skip(1)[i - 1] == cs[i]);
                }
            }
        }
        if forall|i: int| 0 <= i < cs.len() ==> spec_content_valid(#[trigger] cs[i]) {
            assert forall|i: int| 0 <= i < cs.skip(1).len() implies spec_content_valid(
                #[trigger] cs.skip(1)[i],
            ) by {
                assert(cs.skip(1)[i] == cs[i + 1]);
            }
        }
    }
}

/// A content group is fault-free exactly when the scheduler can play it.
pub proof fn lemma_group_error_none(g: ContentGroup)
    ensures
        spec_group_error(g) is None <==> spec_group_valid(g),
{
    lemma_contents_error_none(g.contents@);
}

/// Checks one step for a fault.
fn validate_content(c: &Content) -> (r: Option<ContentError>)
    ensures
        r == spec_content_error(*c),
{
    if c.text.unicode_len() > MAX_TEXT_LEN {
        return Some(ContentError::TextTooLong);
    }
    match &c.animation {
        Animation::Still { .. } => None,
        Animation::Slide { speed, .. } | Animation::SlideInBounds { speed, .. } => {
            match speed {
                SlideSpeed::Dps(dps) => {
                    if *dps == 0 {
                        Some(ContentError::ZeroDps)
                    } else {
                        None
                    }
                },
                SlideSpeed::Duration(_) => None,
            }
        },
    }
}

/// Checks a whole content group, reporting its first fault; a group that
/// passes is one the scheduler plays without reservation.
pub fn validate_content_group(group: &ContentGroup) -> (r: Result<(), ContentError>)
    ensures
        r == (match spec_group_error(*group) {
            None => Ok::<(), ContentError>(()),
            Some(e) => Err(e),
        }),
        r is Ok <==> spec_group_valid(*group),
{
    proof {
        lemma_group_error_none(*group);
    }
    let n = group.contents.len();
    if n == 0 {
        return Err(ContentError::EmptyContents);
    }
    proof {
        assert(group.contents@.skip(0) =~= group.contents@);
    }
    let mut i: usize = 0;
    while i < n
        invariant
            n == group.contents@.len(),
            i <= n,
            spec_contents_error(group.contents@) == spec_contents_error(
                group.contents@.skip(i as int),
            ),
        decreases n - i,
    {
        proof {
            assert(group.contents@.skip(i as int).skip(1) =~= group.contents@.skip(i + 1));
            assert(group.contents@.skip(i as int)[0] == group.contents@[i as int]);
        }
        match validate_content(&group.contents[i]) {
            Some(e) => {
                return Err(e);
            },
            None => {},
        }
        i = i + 1;
    }
    proof {
        assert(group.contents@.skip(n as int) =~= Seq::<Content>::empty());
    }
    Ok(())
}

/// The frame that step `step` of a playable group shows at `now`, its
/// step having started at `start`.
pub open spec fn spec_step_frame(
    contents: Seq<Content>,
    step: int,
    behavior: UnknownGlyphBehavior,
    start: int,
    now: u64,
) -> Seq<Seq<Pixel>> {
    let c = contents[step];
    let glyphs = spec_placement_glyphs(c.text@, behavior);
    let width = spec_placement_width(c.text@, behavior);
    spec_render_grid(
        c.color,
        c.animation,
        c.align,
        glyphs,
        width,
        spec_step_duration(c, width),
        (now - start) as u64,
    )
}

/// The scheduler stage's state: the queue of groups waiting their turn,
/// the group playing now, and the render policy.
#[derive(Debug)]
pub struct Scheduler {
    pub content_queue: Vec<ContentGroup>,
    pub current_content: Option<CurrentContent>,
    pub behavior: UnknownGlyphBehavior,
    pub resend_unchanged: bool,
}

impl Scheduler {
    /// Every queued group is playable, and the active group's state
    /// holds its own invariant.
    pub open spec fn wf(&self) -> bool {
        &&& forall|i: int|
            0 <= i < self.content_queue@.len() ==> spec_group_valid(
                #[trigger] self.content_queue@[i],
            )
        &&& match self.current_content {
            Some(cc) => cc.wf(),
            None => true,
        }
    }

    /// An idle scheduler with the given render policy.
    pub fn new(behavior: UnknownGlyphBehavior, resend_unchanged: bool) -> (s: Scheduler)
        ensures
            s.wf(),
            s.content_queue@.len() == 0,
            s.current_content is None,
            s.behavior == behavior,
            s.resend_unchanged == resend_unchanged,
    {
        Scheduler { content_queue: Vec::new(), current_content: None, behavior, resend_unchanged }
    }

    /// Applies one command: queues a group, shows a group at once in
    /// place of queue and active content, or clears both. A faulty group
    /// is rejected whole, leaving the scheduler untouched.
    pub fn apply_command(&mut self, command: Command, now: u64) -> (r: Result<(), ContentError>)
        requires
            old(self).wf(),
        ensures
            final(self).wf(),
            final(self).behavior == old(self).behavior,
            final(self).resend_unchanged == old(self).resend_unchanged,
            match command {
                Command::Clear => {
                    &&& r is Ok
                    &&& final(self).content_queue@.len() == 0
                    &&& final(self).current_content is None
                },
                Command::AddToQueue { content } => match spec_group_error(content) {
                    None => {
                        &&& r is Ok
                        &&& final(self).content_queue@ == old(self).content_queue@.push(content)
                        &&& final(self).current_content == old(self).current_content
                    },
                    Some(e) => r == Err::<(), ContentError>(e) && *final(self) == *old(self),
                },
                Command::ShowNow { content } => match spec_group_error(content) {
                    None => {
                        &&& r is Ok
                        &&& final(self).content_queue@.len() == 0
                        &&& (final(self).current_content matches Some(cc) && cc.content_group
                            == content && cc.behavior == old(self).behavior && !cc.initialized
                            && cc.step == 0 && cc.step_start_time == now)
                    },
                    Some(e) => r == Err::<(), ContentError>(e) && *final(self) == *old(self),
                },
            },
    {
        match command {
            Command::Clear => {
                self.content_queue.clear();
                self.current_content = None;
                Ok(())
            },
            Command::AddToQueue { content } => {
                match validate_content_group(&content) {
                    Ok(()) => {
                        self.content_queue.push(content);
                        Ok(())
                    },
                    Err(e) => Err(e),
                }
            },
            Command::ShowNow { content } => {
                match validate_content_group(&content) {
                    Ok(()) => {
                        self.content_queue.clear();
                        let behavior = self.behavior;
                        self.current_content = Some(CurrentContent::new(content, behavior, now));
                        Ok(())
                    },
                    Err(e) => Err(e),
                }
            },
        }
    }

    /// One tick of the scheduler stage: promotes the next queued group
    /// when idle, advances the active group's state machine, and renders
    /// a frame when one is owed — on a step start, every tick of a
    /// moving step, and on the last sight of a moving group; a still,
    /// unchanged frame is resent only when the policy asks for it.
    pub fn tick(&mut self, now: u64) -> (r: RenderResult)
        requires
            old(self).wf(),
            match old(self).current_content {
                Some(cc) => cc.step_start_time <= now,
                None => true,
            },
        ensures
            final(self).wf(),
            final(self).behavior == old(self).behavior,
            final(self).resend_unchanged == old(self).resend_unchanged,
            match final(self).current_content {
                Some(cc) => cc.step_start_time <= now,
                None => true,
            },
            r.buffer_state is Updated <==> r.buffer is Some,
            match old(self).current_content {
                None => {
                    if old(self).content_queue@.len() == 0 {
                        &&& r.buffer is None
                        &&& r.content_state is Complete
                        &&& final(self).content_queue@ == old(self).content_queue@
                        &&& final(self).current_content is None
                    } else {
                        &&& final(self).content_queue@ == old(self).content_queue@.remove(0)
                        &&& (final(self).current_content matches Some(cc1) && cc1.initialized
                            && cc1.content_group == old(self).content_queue@[0] && cc1.step == 0
                            && cc1.step_start_time == now && cc1.behavior == old(self).behavior)
                        &&& r.content_state is Incomplete
                        &&& (r.buffer matches Some(b) && b.wf() && b@ == spec_step_frame(
                            old(self).content_queue@[0].contents@,
                            0,
                            old(self).behavior,
                            now as int,
                            now,
                        ))
                    }
                },
                Some(cc0) => {
                    let u = spec_update_result(cc0, now);
                    let st = spec_update_step(cc0, now);
                    let sstart = spec_update_start(cc0, now);
                    let frame = spec_step_frame(
                        cc0.content_group.contents@,
                        st,
                        cc0.behavior,
                        sstart,
                        now,
                    );
                    let owed = (u is StepStarted) || spec_is_animated(
                        cc0.content_group.contents@[st],
                    ) || old(self).resend_unchanged;
                    &&& final(self).content_queue@ == old(self).content_queue@
                    &&& (if u is Finished {
                        final(self).current_content is None && r.content_state is Complete
                    } else {
                        (final(self).current_content matches Some(cc1) && cc1.initialized
                            && cc1.content_group.contents == cc0.content_group.contents
                            && cc1.content_group.repeat == spec_update_repeat(cc0, now)
                            && cc1.step as int == st && cc1.step_start_time as int == sstart
                            && cc1.behavior == cc0.behavior) && r.content_state is Incomplete
                    })
                    &&& (if owed {
                        r.buffer matches Some(b) && b.wf() && b@ == frame
                    } else {
                        r.buffer is None
                    })
                },
            },
    {
        if self.current_content.is_none() {
            if self.content_queue.len() > 0 {
                let group = self.content_queue.remove(0);
                let behavior = self.behavior;
                self.current_content = Some(CurrentContent::new(group, behavior, now));
            }
        }
        let resend = self.resend_unchanged;
        let taken = self.current_content.take();
        match taken {
            None => RenderResult {
                buffer: None,
                content_state: ContentState::Complete,
                buffer_state: ScreenBufferState::NotUpdated,
            },
            Some(mut cc) => {
                let u = cc.update(now);
                let animated = cc.is_animated();
                let should_render = match u {
                    crate::current_content::ContentState::StepStarted => true,
                    _ => animated || resend,
                };
                let finished = match u {
                    crate::current_content::ContentState::Finished => true,
                    _ => false,
                };
                let buffer = if should_render {
                    let b = cc.render(now);
                    proof {
                        assert(b@ == spec_step_frame(
                            cc.content_group.contents@,
                            cc.step as int,
                            cc.behavior,
                            cc.step_start_time as int,
                            now,
                        ));
                    }
                    Some(b)
                } else {
                    None
                };
                if !finished {
                    self.current_content = Some(cc);
                }
                RenderResult {
                    buffer,
                    content_state: if finished {
                        ContentState::Complete
                    } else {
                        ContentState::Incomplete
                    },
                    buffer_state: if should_render {
                        ScreenBufferState::Updated
                    } else {
                        ScreenBufferState::NotUpdated
                    },
                }
            },
        }
    }
}

/// The frame shown from power-on until the first command arrives.
pub fn initial_buffer() -> (b: ScreenBuffer)
    ensures
        b.wf(),
        b@ == spec_render_grid(
            Color::Orange,
            Animation::Still { duration: ContentDuration::Forever },
            crate::api::Alignment::Center,
            spec_placement_glyphs("booting..."@, UnknownGlyphBehavior::Ignore),
            spec_placement_width("booting..."@, UnknownGlyphBehavior::Ignore),
            None,
            0,
        ),
{
    proof {
        reveal_strlit("booting...");
    }
    let rendered = get_glyph_placement("booting...", UnknownGlyphBehavior::Ignore);
    let content = Content {
        text: "booting...".to_owned(),
        color: Color::Orange,
        animation: Animation::Still { duration: ContentDuration::Forever },
        align: crate::api::Alignment::Center,
    };
    render(&content, &rendered, None, 0)
}

/// Computes the sleep before the next frame and the new deadline
/// baseline: deadlines accumulate a fixed period from the previous
/// baseline so render jitter does not drift the frame clock, and the
/// baseline resets to the current reading when a tick overran the period.
pub fn next_frame_pacing(baseline: u64, now: u64, period_ms: u64) -> (r: (u64, u64))
    requires
        baseline <= now,
        baseline + period_ms <= u64::MAX,
    ensures
        now - baseline < period_ms ==> r.0 == period_ms - (now - baseline) && r.1 == baseline
            + period_ms,
        now - baseline >= period_ms ==> r.0 == 0 && r.1 == now,
        r.1 <= now + period_ms,
        now <= r.1,
{
    let elapsed = now - baseline;
    if elapsed < period_ms {
        (period_ms - elapsed, baseline + period_ms)
    } else {
        (0, now)
    }
}

} // verus!
