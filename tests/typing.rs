use avg_ui::typing::TypingText;

const INTERVAL: u64 = 200_000_000;

#[test]
fn ticks_reveal_one_char_then_skip_reveals_all() {
    let mut t = TypingText::new("ABC", INTERVAL);
    t.tick(INTERVAL);
    assert_eq!(t.displayed(), "A");
    t.tick(INTERVAL);
    assert_eq!(t.displayed(), "AB");
    t.skip();
    assert_eq!(t.displayed(), "ABC");
    assert_eq!(t.reveal_index, 3);
}

#[test]
fn short_ticks_accumulate() {
    let mut t = TypingText::new("ABC", INTERVAL);
    t.tick(INTERVAL / 2);
    assert_eq!(t.displayed(), "");
    assert_eq!(t.timer_elapsed, INTERVAL / 2);
    t.tick(INTERVAL / 2);
    assert_eq!(t.displayed(), "A");
    assert_eq!(t.timer_elapsed, 0);
}

#[test]
fn long_tick_reveals_only_one_char() {
    let mut t = TypingText::new("ABC", INTERVAL);
    t.tick(INTERVAL * 2 + 5);
    assert_eq!(t.displayed(), "A");
    assert_eq!(t.reveal_index, 1);
    assert_eq!(t.timer_elapsed, 5);
}

#[test]
fn skip_twice_shows_full_text() {
    let mut t = TypingText::new("hello", INTERVAL);
    t.tick(INTERVAL);
    t.skip();
    t.skip();
    assert_eq!(t.displayed(), "hello");
    assert_eq!(t.displayed_text, t.full_text);
    assert!(t.is_complete());
}

#[test]
fn tick_stops_at_end_of_text() {
    let mut t = TypingText::new("AB", INTERVAL);
    for _ in 0..5 {
        t.tick(INTERVAL);
        assert!(t.reveal_index <= 2);
    }
    assert_eq!(t.displayed(), "AB");
    assert_eq!(t.reveal_index, 2);
}

#[test]
fn reveals_by_unicode_scalar() {
    let mut t = TypingText::new("欢迎DS", INTERVAL);
    t.tick(INTERVAL);
    assert_eq!(t.displayed(), "欢");
    t.tick(INTERVAL);
    assert_eq!(t.displayed(), "欢迎");
    t.tick(INTERVAL);
    assert_eq!(t.displayed(), "欢迎D");
}

#[test]
fn empty_text_is_complete() {
    let mut t = TypingText::new("", INTERVAL);
    assert!(t.is_complete());
    t.tick(INTERVAL);
    assert_eq!(t.displayed(), "");
    assert_eq!(t.reveal_index, 0);
}

#[test]
fn click_reveals_all_without_ticking() {
    let mut t = TypingText::new("ABC", INTERVAL);
    t.update(false, INTERVAL);
    assert_eq!(t.displayed(), "A");
    t.update(true, INTERVAL / 2);
    assert_eq!(t.displayed(), "ABC");
    assert_eq!(t.timer_elapsed, 0);
    t.update(true, INTERVAL / 2);
    assert_eq!(t.timer_elapsed, INTERVAL / 2);
}

#[test]
fn zero_interval_reveals_every_tick() {
    let mut t = TypingText::new("AB", 0);
    t.tick(0);
    assert_eq!(t.displayed(), "A");
    t.tick(7);
    assert_eq!(t.displayed(), "AB");
    assert_eq!(t.timer_elapsed, 0);
}

#[test]
fn set_line_restarts_reveal() {
    let mut t = TypingText::new("ABC", INTERVAL);
    t.tick(INTERVAL + 3);
    t.skip();
    t.set_line("XY");
    assert_eq!(t.displayed(), "");
    assert_eq!(t.reveal_index, 0);
    assert_eq!(t.timer_elapsed, 0);
    assert_eq!(t.reveal_interval, INTERVAL);
    t.tick(INTERVAL);
    assert_eq!(t.displayed(), "X");
}
