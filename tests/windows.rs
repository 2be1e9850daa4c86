use console_core::screen::{Color, Screen};
use console_core::window_manager::{Window, WindowManager};

fn glyph(screen: &Screen, x: usize, y: usize) -> u8 {
    screen.cell_at(x, y).glyph
}

#[test]
fn ten_windows_fill_the_registry() {
    let mut manager = WindowManager::new();
    for i in 0..10 {
        let w = Window::new(i, i, 10, 5, "w", Color::Green);
        assert_eq!(manager.add_window(w), Some(i));
    }
    let extra = Window::new(50, 10, 10, 5, "extra", Color::Red);
    assert_eq!(manager.add_window(extra), None);
    for i in 0..10 {
        let w = manager.get_window(i).unwrap();
        assert_eq!((w.x, w.y, w.width, w.height, w.title), (i, i, 10, 5, "w"));
        assert_eq!(w.color, Color::Green);
    }
    assert!(manager.get_window(10).is_none());
}

#[test]
fn active_window_border_survives_draw_all() {
    let mut screen = Screen::new();
    let mut manager = WindowManager::new();
    let under = Window::new(0, 0, 30, 10, "Under", Color::Cyan);
    let over = Window::new(5, 2, 30, 10, "Over", Color::Red);
    assert_eq!(manager.add_window(under), Some(0));
    assert_eq!(manager.add_window(over), Some(1));
    manager.set_active_window(0);
    assert_eq!(manager.active_window(), 0);
    manager.draw_all(&mut screen);
    for x in 0..30 {
        let top = screen.cell_at(x, 0);
        let bottom = screen.cell_at(x, 9);
        assert_eq!(top.fg, Color::Cyan);
        assert_eq!(bottom.fg, Color::Cyan);
        let expected = if x == 0 || x == 29 { b'+' } else { b'-' };
        assert_eq!(bottom.glyph, expected);
    }
    for y in 1..9 {
        assert_eq!(glyph(&screen, 0, y), b'|');
        assert_eq!(glyph(&screen, 29, y), b'|');
        assert_eq!(screen.cell_at(29, y).fg, Color::Cyan);
    }
    // The part of the other window outside the active one is still drawn.
    assert_eq!(glyph(&screen, 34, 5), b'|');
    assert_eq!(screen.cell_at(34, 5).fg, Color::Red);
}

#[test]
fn set_active_ignores_empty_slot() {
    let mut manager = WindowManager::new();
    manager.add_window(Window::new(0, 0, 10, 5, "a", Color::Blue));
    manager.add_window(Window::new(10, 0, 10, 5, "b", Color::Blue));
    manager.set_active_window(1);
    manager.set_active_window(5);
    manager.set_active_window(42);
    assert_eq!(manager.active_window(), 1);
}

#[test]
fn title_is_centered_when_it_fits() {
    let mut screen = Screen::new();
    let w = Window::new(0, 0, 20, 5, "Hi", Color::White);
    w.draw(&mut screen);
    // start = 0 + (20 - 2) / 2 = 9
    assert_eq!(glyph(&screen, 9, 0), b'H');
    assert_eq!(glyph(&screen, 10, 0), b'i');
    assert_eq!(glyph(&screen, 8, 0), b'-');
    assert_eq!(glyph(&screen, 0, 0), b'+');
    assert_eq!(glyph(&screen, 19, 4), b'+');
    assert_eq!(glyph(&screen, 5, 2), b' ');
}

#[test]
fn title_that_does_not_fit_is_left_out() {
    let mut screen = Screen::new();
    let w = Window::new(0, 0, 6, 3, "Long", Color::White);
    w.draw(&mut screen);
    for x in 1..5 {
        assert_eq!(glyph(&screen, x, 0), b'-');
    }
}

#[test]
fn print_at_clips_at_the_right_border() {
    let mut screen = Screen::new();
    let w = Window::new(10, 5, 8, 4, "", Color::Yellow);
    w.draw(&mut screen);
    w.print_at(&mut screen, 1, 0, "abcdefgh");
    // interior columns 11..=16; text starts at 12
    assert_eq!(glyph(&screen, 12, 6), b'a');
    assert_eq!(glyph(&screen, 16, 6), b'e');
    assert_eq!(glyph(&screen, 17, 6), b'|');
    assert_eq!(screen.cell_at(12, 6).fg, Color::Yellow);
}

#[test]
fn print_at_on_the_bottom_border_writes_nothing() {
    let mut screen = Screen::new();
    let w = Window::new(10, 5, 8, 4, "", Color::Yellow);
    w.draw(&mut screen);
    w.print_at(&mut screen, 0, 2, "xx");
    assert_eq!(glyph(&screen, 11, 8), b'-');
    w.print_at(&mut screen, 0, 1, "xx");
    assert_eq!(glyph(&screen, 11, 7), b'x');
}

#[test]
fn clear_blanks_only_the_interior() {
    let mut screen = Screen::new();
    let w = Window::new(0, 0, 10, 4, "", Color::Pink);
    w.draw(&mut screen);
    w.print_at(&mut screen, 0, 0, "hello");
    w.clear(&mut screen);
    assert_eq!(glyph(&screen, 1, 1), b' ');
    assert_eq!(glyph(&screen, 0, 1), b'|');
    assert_eq!(glyph(&screen, 0, 0), b'+');
}
