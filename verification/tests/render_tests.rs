use prolite::api::{Alignment, Animation, Color, Command, Content, ContentDuration, ContentGroup,
    Repeat, SlideDirection, SlideSpeed, SlideType};
use prolite::current_content::CurrentContent;
use prolite::glyphs::{UnknownGlyphBehavior, get_glyph, get_glyph_placement};
use prolite::pipeline::{Scheduler, ScreenBufferState, initial_buffer};
use prolite::{Level, Pixel, ScreenBuffer};

fn glyph_bit(data: u64, width: usize, row: usize, col: usize) -> bool {
    (data >> ((6 - row) * width + (width - 1 - col))) & 1 == 1
}

fn buffers_equal(a: &ScreenBuffer, b: &ScreenBuffer) -> bool {
    for row in 0..7 {
        for col in 0..80 {
            if a.get(row, col) != b.get(row, col) {
                return false;
            }
        }
    }
    true
}

fn red() -> Pixel {
    Pixel { red: Level::On, green: Level::Off }
}

#[test]
fn rendering_twice_gives_identical_frames() {
    let content = Content {
        text: "HELLO?".to_string(),
        color: Color::Green,
        animation: Animation::Slide {
            slide_type: SlideType::InOut,
            direction: SlideDirection::RightToLeft,
            speed: SlideSpeed::Dps(12),
        },
        align: Alignment::Center,
    };
    let g = ContentGroup { contents: vec![content], repeat: Repeat::Once };
    let mut cc = CurrentContent::new(g, UnknownGlyphBehavior::ReplaceWithPlaceholder, 0);
    cc.update(0);
    for now in [0, 123, 5000] {
        let a = cc.render(now);
        let b = cc.render(now);
        assert!(buffers_equal(&a, &b));
    }
}

#[test]
fn show_now_command_renders_centered_red_text() {
    // the wire form of this command:
    // {"method":"show_now","content":{"contents":[{"text":"HI","color":"red"}]}}
    let wire: serde_json::Value = serde_json::from_str(
        "{\"method\":\"show_now\",\"content\":{\"contents\":[{\"text\":\"HI\",\"color\":\"red\"}]}}",
    )
    .unwrap();
    assert_eq!(wire["method"].as_str().unwrap(), "show_now");
    let steps = wire["content"]["contents"].as_array().unwrap();
    assert_eq!(steps.len(), 1);
    let step = &steps[0];
    let content = Content {
        text: step["text"].as_str().unwrap().to_string(),
        color: match step["color"].as_str() {
            Some("red") => Color::Red,
            Some("green") => Color::Green,
            Some("orange") => Color::Orange,
            _ => Color::default(),
        },
        animation: Animation::default(),
        align: Alignment::default(),
    };
    let group = ContentGroup { contents: vec![content], repeat: Repeat::default() };
    let command = Command::ShowNow { content: group };

    let mut scheduler = Scheduler::new(UnknownGlyphBehavior::ReplaceWithPlaceholder, false);
    scheduler.apply_command(command, 0).unwrap();
    let result = scheduler.tick(0);
    assert!(matches!(result.buffer_state, ScreenBufferState::Updated));
    let buffer = result.buffer.unwrap();

    // 'H' then 'I' with one spacing column, centered: width 9 on an
    // 80-column screen starts at column 35 with rows untouched
    let h = get_glyph('H').unwrap();
    let i = get_glyph('I').unwrap();
    let placement = [(h, 35usize), (i, 41usize)];
    let mut expected = vec![vec![false; 80]; 7];
    for (glyph, start) in placement {
        for row in 0..7 {
            for col in 0..glyph.width() {
                if glyph_bit(glyph.data, glyph.width(), row, col) {
                    expected[row][start + col] = true;
                }
            }
        }
    }
    let mut lit = 0;
    for row in 0..7 {
        for col in 0..80 {
            let p = buffer.get(row, col);
            if expected[row][col] {
                assert_eq!(p, red(), "row {} col {}", row, col);
                lit += 1;
            } else {
                assert_eq!(p, Pixel::off(), "row {} col {}", row, col);
            }
            // the green channel stays dark everywhere
            assert_eq!(p.green, Level::Off);
        }
    }
    assert!(lit > 0);
}

#[test]
fn off_screen_writes_are_discarded() {
    let content = Content {
        text: "HI".to_string(),
        color: Color::Orange,
        animation: Animation::Slide {
            slide_type: SlideType::InOut,
            direction: SlideDirection::TopToBottom,
            speed: SlideSpeed::Duration(1000),
        },
        align: Alignment::Center,
    };
    let g = ContentGroup { contents: vec![content], repeat: Repeat::Once };
    let mut cc = CurrentContent::new(g, UnknownGlyphBehavior::Ignore, 0);
    cc.update(0);
    // at elapsed zero the glyphs sit fully above the screen
    let buffer = cc.render(0);
    for row in 0..7 {
        for col in 0..80 {
            assert_eq!(buffer.get(row, col), Pixel::off());
        }
    }
    // at the end of the slide they sit fully below it
    let end = cc.render(1000);
    for row in 0..7 {
        for col in 0..80 {
            assert_eq!(end.get(row, col), Pixel::off());
        }
    }
    // midway through, something is on screen
    let mid = cc.render(500);
    let mut lit = 0;
    for row in 0..7 {
        for col in 0..80 {
            if mid.get(row, col) != Pixel::off() {
                lit += 1;
            }
        }
    }
    assert!(lit > 0);
}

#[test]
fn boot_frame_is_not_blank() {
    // the banner text rasterizes to its full lowercase form
    let banner = get_glyph_placement("booting...", UnknownGlyphBehavior::Ignore);
    assert_eq!(banner.glyphs.len(), 10);
    assert_eq!(banner.width, 46);

    let b = initial_buffer();
    let mut lit = 0;
    for row in 0..7 {
        for col in 0..80 {
            if b.get(row, col) != Pixel::off() {
                lit += 1;
            }
        }
    }
    assert!(lit > 0);
    let text = b.to_text();
    assert_eq!(text.len(), 567);
    assert_eq!(text.lines().count(), 7);
}

#[test]
fn buffer_text_shows_each_color() {
    let mut b = ScreenBuffer::new();
    b.set_if_in_bounds(0, 0, Pixel { red: Level::On, green: Level::Off });
    b.set_if_in_bounds(1, 1, Pixel { red: Level::Off, green: Level::On });
    b.set_if_in_bounds(2, 2, Pixel { red: Level::On, green: Level::On });
    // off-screen writes change nothing
    b.set_if_in_bounds(-1, 0, Pixel { red: Level::On, green: Level::On });
    b.set_if_in_bounds(0, 80, Pixel { red: Level::On, green: Level::On });
    let text = b.to_text();
    let lines: Vec<&str> = text.lines().collect();
    assert!(lines[0].starts_with("R."));
    assert!(lines[1].starts_with(".G"));
    assert!(lines[2].starts_with("..O"));
    assert_eq!(lines[0].len(), 80);
    assert_eq!(text.matches('R').count(), 1);
    assert_eq!(text.matches('G').count(), 1);
    assert_eq!(text.matches('O').count(), 1);
}

#[test]
fn pixel_byte_round_trip() {
    for (red, green) in [
        (Level::Off, Level::Off),
        (Level::On, Level::Off),
        (Level::Off, Level::On),
        (Level::On, Level::On),
    ] {
        let p = Pixel { red, green };
        assert_eq!(Pixel::deserialize(p.serialize()), p);
    }
    assert_eq!(Pixel { red: Level::On, green: Level::Off }.serialize(), 1);
    assert_eq!(Pixel { red: Level::Off, green: Level::On }.serialize(), 2);
    assert_eq!(Pixel { red: Level::On, green: Level::On }.serialize(), 3);
}

#[test]
fn screen_buffer_byte_round_trip() {
    let content = Content {
        text: "ROUND TRIP".to_string(),
        color: Color::Orange,
        animation: Animation::Still { duration: ContentDuration::Forever },
        align: Alignment::Center,
    };
    let rendered = get_glyph_placement(&content.text, UnknownGlyphBehavior::Ignore);
    let buffer = prolite::render::render(&content, &rendered, None, 0);
    let bytes = buffer.serialize();
    assert_eq!(bytes.len(), 560);
    let back = ScreenBuffer::deserialize(&bytes);
    assert!(buffers_equal(&buffer, &back));
}
