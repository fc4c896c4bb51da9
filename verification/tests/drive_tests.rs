use prolite::api::{Alignment, Animation, Color, Content, ContentDuration};
use prolite::drive::{DriveAction, ROW_DELAY_US, SCAN_PLAN_LEN, row_address_signals, scan_plan};
use prolite::glyphs::{UnknownGlyphBehavior, get_glyph_placement};
use prolite::render::render;
use prolite::{Level, Pixel, ScreenBuffer};

fn some_frame() -> ScreenBuffer {
    let content = Content {
        text: "SCAN 42!".to_string(),
        color: Color::Orange,
        animation: Animation::Still { duration: ContentDuration::Forever },
        align: Alignment::Center,
    };
    let rendered = get_glyph_placement(&content.text, UnknownGlyphBehavior::Ignore);
    render(&content, &rendered, None, 0)
}

#[test]
fn scan_visits_every_cell_exactly_once() {
    for buffer in [ScreenBuffer::new(), some_frame()] {
        let plan = scan_plan(&buffer);
        assert_eq!(plan.len(), SCAN_PLAN_LEN);
        // the color assertions appear in the fixed scan order - row by
        // row, columns right to left - one per cell, whatever the
        // buffer holds
        let mut cell = 0usize;
        for action in &plan {
            if let DriveAction::SetColorLines { red, green } = action {
                let row = cell / 80;
                let col = 79 - (cell % 80);
                let expected = buffer.get(row, col);
                assert_eq!((*red, *green), (expected.red, expected.green));
                cell += 1;
            }
        }
        assert_eq!(cell, 7 * 80);
    }
}

#[test]
fn scan_plan_is_deterministic() {
    let buffer = some_frame();
    assert_eq!(scan_plan(&buffer), scan_plan(&buffer));
}

#[test]
fn scan_latches_each_row_once() {
    let plan = scan_plan(&ScreenBuffer::new());
    let addresses: Vec<(Level, Level, Level)> = plan
        .iter()
        .filter_map(|a| match a {
            DriveAction::SetRowAddress { row_0, row_1, row_2 } => Some((*row_0, *row_1, *row_2)),
            _ => None,
        })
        .collect();
    assert_eq!(addresses.len(), 7);
    for row in 0..7 {
        assert_eq!(addresses[row], row_address_signals(row));
    }
    let latch_pulses = plan
        .iter()
        .filter(|a| matches!(a, DriveAction::DelayUs(us) if *us == ROW_DELAY_US))
        .count();
    assert_eq!(latch_pulses, 7);
}

#[test]
fn row_addresses_are_distinct() {
    for a in 0..7 {
        for b in 0..7 {
            if a != b {
                assert_ne!(row_address_signals(a), row_address_signals(b));
            }
        }
    }
}

#[test]
fn every_clock_raise_is_lowered_again() {
    let plan = scan_plan(&some_frame());
    let mut clock_high = false;
    for action in &plan {
        match action {
            DriveAction::ClockHigh => {
                assert!(!clock_high, "clock raised twice without a fall");
                clock_high = true;
            },
            DriveAction::ClockLow => {
                clock_high = false;
            },
            _ => {},
        }
    }
    assert!(!clock_high);
    let raises = plan.iter().filter(|a| matches!(a, DriveAction::ClockHigh)).count();
    assert_eq!(raises, 560);
}

#[test]
fn buffer_swap_takes_effect_only_with_the_next_plan() {
    // a scan is one value computed from one buffer: a frame handed over
    // afterwards changes nothing in it
    let first = ScreenBuffer::new();
    let plan = scan_plan(&first);
    let mut second = ScreenBuffer::new();
    second.set_if_in_bounds(3, 40, Pixel { red: Level::On, green: Level::On });
    let plan_again = scan_plan(&first);
    assert_eq!(plan, plan_again);
    let swapped = scan_plan(&second);
    assert_ne!(plan, swapped);
}
