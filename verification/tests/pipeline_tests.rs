use prolite::api::{Alignment, Animation, Color, Command, Content, ContentDuration, ContentGroup,
    Repeat, SlideDirection, SlideSpeed, SlideType};
use prolite::glyphs::UnknownGlyphBehavior;
use prolite::pipeline::{ContentError, ContentState, Scheduler, ScreenBufferState,
    next_frame_pacing, validate_content_group};

fn still(text: &str, duration: ContentDuration) -> Content {
    Content {
        text: text.to_string(),
        color: Color::default(),
        animation: Animation::Still { duration },
        align: Alignment::default(),
    }
}

fn sliding(text: &str) -> Content {
    Content {
        text: text.to_string(),
        color: Color::default(),
        animation: Animation::Slide {
            slide_type: SlideType::default(),
            direction: SlideDirection::default(),
            speed: SlideSpeed::Duration(1000),
        },
        align: Alignment::default(),
    }
}

fn one_step(c: Content) -> ContentGroup {
    ContentGroup { contents: vec![c], repeat: Repeat::Once }
}

fn scheduler() -> Scheduler {
    Scheduler::new(UnknownGlyphBehavior::ReplaceWithPlaceholder, false)
}

#[test]
fn idle_scheduler_produces_nothing() {
    let mut s = scheduler();
    let r = s.tick(0);
    assert!(r.buffer.is_none());
    assert!(matches!(r.content_state, ContentState::Complete));
    assert!(matches!(r.buffer_state, ScreenBufferState::NotUpdated));
}

#[test]
fn queued_group_is_promoted_and_rendered() {
    let mut s = scheduler();
    let cmd = Command::AddToQueue { content: one_step(still("HI", ContentDuration::Forever)) };
    s.apply_command(cmd, 0).unwrap();
    let r = s.tick(5);
    assert!(r.buffer.is_some());
    assert!(matches!(r.content_state, ContentState::Incomplete));
    assert!(matches!(r.buffer_state, ScreenBufferState::Updated));
}

#[test]
fn add_to_queue_waits_behind_the_active_group() {
    let mut s = scheduler();
    s.apply_command(
        Command::ShowNow { content: one_step(still("A", ContentDuration::Duration(100))) },
        0,
    )
    .unwrap();
    s.apply_command(
        Command::AddToQueue { content: one_step(still("B", ContentDuration::Forever)) },
        0,
    )
    .unwrap();
    let r = s.tick(0);
    assert!(matches!(r.content_state, ContentState::Incomplete));
    // the first group ends at 100 and the queued one takes over
    let r = s.tick(100);
    assert!(matches!(r.content_state, ContentState::Complete));
    let r = s.tick(100);
    assert!(matches!(r.content_state, ContentState::Incomplete));
    assert!(r.buffer.is_some());
}

#[test]
fn show_now_clears_the_queue() {
    let mut s = scheduler();
    s.apply_command(
        Command::AddToQueue { content: one_step(still("A", ContentDuration::Forever)) },
        0,
    )
    .unwrap();
    s.apply_command(
        Command::ShowNow { content: one_step(still("B", ContentDuration::Duration(10))) },
        0,
    )
    .unwrap();
    assert!(s.content_queue.is_empty());
    s.tick(0);
    // once the shown group finishes, nothing else is waiting
    s.tick(10);
    let r = s.tick(10);
    assert!(r.buffer.is_none());
    assert!(matches!(r.content_state, ContentState::Complete));
}

#[test]
fn clear_drops_queue_and_active_content() {
    let mut s = scheduler();
    s.apply_command(
        Command::ShowNow { content: one_step(still("A", ContentDuration::Forever)) },
        0,
    )
    .unwrap();
    s.apply_command(
        Command::AddToQueue { content: one_step(still("B", ContentDuration::Forever)) },
        0,
    )
    .unwrap();
    s.apply_command(Command::Clear, 0).unwrap();
    assert!(s.content_queue.is_empty());
    assert!(s.current_content.is_none());
    let r = s.tick(0);
    assert!(r.buffer.is_none());
}

#[test]
fn empty_group_is_rejected_without_mutation() {
    let mut s = scheduler();
    s.apply_command(
        Command::ShowNow { content: one_step(still("A", ContentDuration::Forever)) },
        0,
    )
    .unwrap();
    let empty = ContentGroup { contents: vec![], repeat: Repeat::Once };
    let r = s.apply_command(Command::ShowNow { content: empty }, 5);
    assert_eq!(r, Err(ContentError::EmptyContents));
    // the active content survived the rejected command
    assert!(s.current_content.is_some());
}

#[test]
fn zero_rate_slide_is_rejected() {
    let bad = Content {
        text: "A".to_string(),
        color: Color::default(),
        animation: Animation::Slide {
            slide_type: SlideType::default(),
            direction: SlideDirection::default(),
            speed: SlideSpeed::Dps(0),
        },
        align: Alignment::default(),
    };
    assert_eq!(validate_content_group(&one_step(bad.clone())), Err(ContentError::ZeroDps));
    let mut s = scheduler();
    let r = s.apply_command(Command::AddToQueue { content: one_step(bad) }, 0);
    assert_eq!(r, Err(ContentError::ZeroDps));
    assert!(s.content_queue.is_empty());
}

#[test]
fn overlong_text_is_rejected() {
    // one character past the rasterizer's limit
    let text = "!".repeat(214_748_357);
    let bad = still(&text, ContentDuration::Forever);
    assert_eq!(
        validate_content_group(&one_step(bad)),
        Err(ContentError::TextTooLong)
    );
}

#[test]
fn valid_group_passes_validation() {
    assert_eq!(validate_content_group(&one_step(sliding("OK"))), Ok(()));
    assert_eq!(
        validate_content_group(&one_step(still("OK", ContentDuration::Forever))),
        Ok(())
    );
}

#[test]
fn still_frames_are_not_resent() {
    let mut s = scheduler();
    s.apply_command(
        Command::ShowNow { content: one_step(still("A", ContentDuration::Forever)) },
        0,
    )
    .unwrap();
    let first = s.tick(0);
    assert!(first.buffer.is_some());
    let second = s.tick(42);
    assert!(second.buffer.is_none());
    assert!(matches!(second.buffer_state, ScreenBufferState::NotUpdated));
    assert!(matches!(second.content_state, ContentState::Incomplete));
}

#[test]
fn still_frames_are_resent_on_request() {
    let mut s = Scheduler::new(UnknownGlyphBehavior::ReplaceWithPlaceholder, true);
    s.apply_command(
        Command::ShowNow { content: one_step(still("A", ContentDuration::Forever)) },
        0,
    )
    .unwrap();
    assert!(s.tick(0).buffer.is_some());
    assert!(s.tick(42).buffer.is_some());
}

#[test]
fn moving_content_is_rendered_every_tick() {
    let mut s = scheduler();
    s.apply_command(Command::ShowNow { content: one_step(sliding("A")) }, 0).unwrap();
    for now in [0, 42, 84, 126] {
        let r = s.tick(now);
        assert!(r.buffer.is_some(), "tick at {}", now);
    }
}

#[test]
fn finished_moving_group_is_rendered_one_last_time() {
    let mut s = scheduler();
    s.apply_command(Command::ShowNow { content: one_step(sliding("A")) }, 0).unwrap();
    s.tick(0);
    let last = s.tick(1000);
    assert!(matches!(last.content_state, ContentState::Complete));
    assert!(last.buffer.is_some());
    assert!(s.current_content.is_none());
}

#[test]
fn pacing_accumulates_fixed_deadlines() {
    // rendering took 10 of the 42-unit period: sleep the remaining 32
    // and keep the deadline on the fixed grid
    assert_eq!(next_frame_pacing(0, 10, 42), (32, 42));
    assert_eq!(next_frame_pacing(42, 50, 42), (34, 84));
    // an overrun resets the baseline instead of sleeping a negative time
    assert_eq!(next_frame_pacing(0, 50, 42), (0, 50));
    assert_eq!(next_frame_pacing(0, 42, 42), (0, 42));
}
