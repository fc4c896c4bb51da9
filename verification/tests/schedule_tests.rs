use prolite::api::{Alignment, Animation, Color, Content, ContentDuration, ContentGroup, Repeat,
    SlideDirection, SlideSpeed, SlideType};
use prolite::current_content::{ContentState, CurrentContent, get_duration,
    get_finite_animation_duration};
use prolite::glyphs::UnknownGlyphBehavior;

fn still_step(text: &str, ms: u64) -> Content {
    Content {
        text: text.to_string(),
        color: Color::default(),
        animation: Animation::Still { duration: ContentDuration::Duration(ms) },
        align: Alignment::default(),
    }
}

fn group(contents: Vec<Content>, repeat: Repeat) -> ContentGroup {
    ContentGroup { contents, repeat }
}

#[test]
fn repeat_times_two_starts_three_times_then_finishes() {
    // one step, two extra passes: three step starts before the end
    let g = group(vec![still_step("HI", 1000)], Repeat::Times(2));
    let mut cc = CurrentContent::new(g, UnknownGlyphBehavior::ReplaceWithPlaceholder, 0);
    let mut starts = 0;
    let mut now = 0;
    let finished_at = loop {
        match cc.update(now) {
            ContentState::StepStarted => starts += 1,
            ContentState::Finished => break now,
            ContentState::StepIncomplete => {},
        }
        now += 1000;
        assert!(now <= 10_000, "scheduler never finished");
    };
    assert_eq!(starts, 3);
    assert_eq!(finished_at, 3000);
}

#[test]
fn first_update_starts_step_zero() {
    let g = group(vec![still_step("A", 500)], Repeat::Once);
    let mut cc = CurrentContent::new(g, UnknownGlyphBehavior::Ignore, 7);
    assert!(matches!(cc.update(7), ContentState::StepStarted));
    assert_eq!(cc.step_start_time, 7);
    assert_eq!(cc.step_duration, Some(500));
    assert_eq!(cc.rendered_glyphs.width, 5);
}

#[test]
fn step_advances_only_after_its_duration() {
    let g = group(vec![still_step("A", 500), still_step("B", 500)], Repeat::Once);
    let mut cc = CurrentContent::new(g, UnknownGlyphBehavior::Ignore, 0);
    assert!(matches!(cc.update(0), ContentState::StepStarted));
    assert!(matches!(cc.update(100), ContentState::StepIncomplete));
    assert!(matches!(cc.update(499), ContentState::StepIncomplete));
    assert!(matches!(cc.update(500), ContentState::StepStarted));
    assert_eq!(cc.step_start_time, 500);
    assert!(matches!(cc.update(999), ContentState::StepIncomplete));
    assert!(matches!(cc.update(1000), ContentState::Finished));
}

#[test]
fn forever_content_never_finishes() {
    let c = Content {
        text: "A".to_string(),
        color: Color::default(),
        animation: Animation::Still { duration: ContentDuration::Forever },
        align: Alignment::default(),
    };
    let mut cc = CurrentContent::new(
        group(vec![c], Repeat::Once),
        UnknownGlyphBehavior::Ignore,
        0,
    );
    assert!(matches!(cc.update(0), ContentState::StepStarted));
    for now in [1, 1000, 1_000_000, u64::MAX] {
        assert!(matches!(cc.update(now), ContentState::StepIncomplete));
    }
}

#[test]
fn forever_repeat_restarts_at_step_zero() {
    let g = group(vec![still_step("A", 100), still_step("B", 100)], Repeat::Forever);
    let mut cc = CurrentContent::new(g, UnknownGlyphBehavior::Ignore, 0);
    assert!(matches!(cc.update(0), ContentState::StepStarted));
    assert!(matches!(cc.update(100), ContentState::StepStarted));
    assert!(matches!(cc.update(200), ContentState::StepStarted));
    assert_eq!(cc.step_start_time, 200);
    // still on the first step of the new pass
    assert_eq!(cc.content().text, "A");
    assert!(matches!(cc.update(300), ContentState::StepStarted));
    assert_eq!(cc.content().text, "B");
}

#[test]
fn times_zero_behaves_like_no_repeat() {
    let g = group(vec![still_step("A", 100)], Repeat::Times(0));
    let mut cc = CurrentContent::new(g, UnknownGlyphBehavior::Ignore, 0);
    assert!(matches!(cc.update(0), ContentState::StepStarted));
    assert!(matches!(cc.update(100), ContentState::Finished));
}

#[test]
fn is_animated_tracks_the_active_step() {
    let slide = Content {
        text: "A".to_string(),
        color: Color::default(),
        animation: Animation::Slide {
            slide_type: SlideType::default(),
            direction: SlideDirection::default(),
            speed: SlideSpeed::Duration(100),
        },
        align: Alignment::default(),
    };
    let g = group(vec![still_step("A", 100), slide], Repeat::Once);
    let mut cc = CurrentContent::new(g, UnknownGlyphBehavior::Ignore, 0);
    cc.update(0);
    assert!(!cc.is_animated());
    cc.update(100);
    assert!(cc.is_animated());
}

#[test]
fn still_duration_is_the_configured_one() {
    let c = still_step("HI", 1234);
    assert_eq!(get_duration(&c, 9), Some(1234));
    let forever = Content {
        text: "HI".to_string(),
        color: Color::default(),
        animation: Animation::Still { duration: ContentDuration::Forever },
        align: Alignment::default(),
    };
    assert_eq!(get_duration(&forever, 9), None);
}

#[test]
fn slide_duration_follows_the_animated_length() {
    // in or out horizontally: half of screen plus content width
    let c = Content {
        text: "HI".to_string(),
        color: Color::default(),
        animation: Animation::Slide {
            slide_type: SlideType::In,
            direction: SlideDirection::RightToLeft,
            speed: SlideSpeed::Dps(12),
        },
        align: Alignment::default(),
    };
    // (80 + 9) / 2 = 44 dots at 12 dots per second, rounded to the
    // nearest millisecond
    assert_eq!(get_duration(&c, 9), Some(3667));

    let through = Content {
        animation: Animation::Slide {
            slide_type: SlideType::InOut,
            direction: SlideDirection::RightToLeft,
            speed: SlideSpeed::Dps(89),
        },
        ..c.clone()
    };
    // 80 + 9 dots at 89 dots per second: exactly one second
    assert_eq!(get_duration(&through, 9), Some(1000));

    let vertical = Content {
        animation: Animation::Slide {
            slide_type: SlideType::Out,
            direction: SlideDirection::TopToBottom,
            speed: SlideSpeed::Dps(7),
        },
        ..c.clone()
    };
    assert_eq!(get_duration(&vertical, 9), Some(1000));

    let vertical_through = Content {
        animation: Animation::Slide {
            slide_type: SlideType::InOut,
            direction: SlideDirection::BottomToTop,
            speed: SlideSpeed::Dps(7),
        },
        ..c
    };
    assert_eq!(get_duration(&vertical_through, 9), Some(2000));
}

#[test]
fn in_bounds_duration_covers_only_the_excess() {
    let c = Content {
        text: "X".to_string(),
        color: Color::default(),
        animation: Animation::SlideInBounds {
            direction: prolite::api::SlideInBoundsDirection::Forward,
            speed: SlideSpeed::Dps(10),
        },
        align: Alignment::default(),
    };
    // content narrower than the screen has nothing to animate
    assert_eq!(get_duration(&c, 9), Some(0));
    assert_eq!(get_duration(&c, 100), Some(2000));
}

#[test]
fn rate_durations_round_to_nearest_millisecond() {
    assert_eq!(get_finite_animation_duration(&SlideSpeed::Dps(3), 1), 333);
    assert_eq!(get_finite_animation_duration(&SlideSpeed::Dps(3), 2), 667);
    assert_eq!(get_finite_animation_duration(&SlideSpeed::Dps(12), 44), 3667);
    assert_eq!(get_finite_animation_duration(&SlideSpeed::Duration(77), 1000), 77);
}
