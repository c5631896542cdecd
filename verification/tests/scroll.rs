use hello_world::{message, render, ScrollingTextGenerator, LABEL_WIDTH};

#[test]
fn row_at_start_is_blank() {
    assert_eq!(render(0, "Hello World", 40), " ".repeat(40));
}

#[test]
fn first_tick_shows_first_character() {
    let expected = format!("{}H", " ".repeat(39));
    assert_eq!(render(1, "Hello World", 40), expected);
}

#[test]
fn fully_visible_at_field_width() {
    let expected = format!("Hello World{}", " ".repeat(29));
    assert_eq!(render(40, "Hello World", 40), expected);
}

#[test]
fn wraps_after_full_cycle() {
    assert_eq!(render(51, "Hello World", 40), render(0, "Hello World", 40));
    assert_eq!(render(51, "Hello World", 40), " ".repeat(40));
}

#[test]
fn exit_phase_shows_tail() {
    let expected = format!(" World{}", " ".repeat(34));
    assert_eq!(render(45, "Hello World", 40), expected);
}

#[test]
fn render_is_pure() {
    for p in [0, 1, 17, 40, 45, 51, 1000] {
        assert_eq!(
            render(p, "Hello World", 40),
            render(p, "Hello World", 40)
        );
    }
}

#[test]
fn row_always_has_field_width() {
    for p in 0..200 {
        assert_eq!(render(p, "Hello World", 40).chars().count(), 40);
    }
}

#[test]
fn empty_message_gives_blank_rows() {
    for p in 0..90 {
        assert_eq!(render(p, "", 40), " ".repeat(40));
    }
}

#[test]
fn zero_width_gives_empty_rows() {
    assert_eq!(render(3, "Hello World", 0), "");
    assert_eq!(render(0, "", 0), "");
}

#[test]
fn narrow_field_clips_the_message() {
    assert_eq!(render(2, "Hello World", 3), " He");
    assert_eq!(render(3, "Hello World", 3), "Hel");
    assert_eq!(render(4, "Hello World", 3), "ell");
}

#[test]
fn message_is_hello_world() {
    assert_eq!(message(), "Hello World");
    assert_eq!(LABEL_WIDTH, 40);
}

#[test]
fn generator_starts_at_zero() {
    let g = ScrollingTextGenerator::new(message().to_owned(), LABEL_WIDTH);
    assert_eq!(g.position, 0);
}

#[test]
fn generator_first_tick_matches_render_of_one() {
    let mut g = ScrollingTextGenerator::new(message().to_owned(), LABEL_WIDTH);
    let row = g.tick();
    assert_eq!(g.position, 1);
    assert_eq!(row, render(1, "Hello World", 40));
    assert_eq!(row, format!("{}H", " ".repeat(39)));
}

#[test]
fn generator_wraps_after_a_full_cycle() {
    let mut g = ScrollingTextGenerator::new(message().to_owned(), LABEL_WIDTH);
    let mut last = String::new();
    for _ in 0..51 {
        last = g.tick();
    }
    assert_eq!(g.position, 0);
    assert_eq!(last, " ".repeat(40));
}

#[test]
fn generator_replays_the_cycle_exactly() {
    let mut g = ScrollingTextGenerator::new(message().to_owned(), LABEL_WIDTH);
    let first_cycle: Vec<String> = (0..51).map(|_| g.tick()).collect();
    let second_cycle: Vec<String> = (0..51).map(|_| g.tick()).collect();
    assert_eq!(first_cycle, second_cycle);
}
