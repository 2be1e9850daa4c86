use console_core::command::{
    parse_typed_line, parse_command, respond, trim_bounds, Action, Command, ALREADY_WINDOWED_TEXT, HELP_TEXT,
    NO_3D_TEXT,
};
use console_core::config::{DisplayConfig, UiMode};
use console_core::screen::{Color, Screen};
use console_core::session::{start, Session};
use console_core::terminal::{Terminal, TerminalOutput};
use console_core::window_manager::Window;

fn chars(s: &str) -> Vec<char> {
    s.chars().collect()
}

fn type_into(t: &mut Terminal, screen: &mut Screen, buf: &mut [char; 64], pos: &mut usize, text: &str) -> Action {
    let mut last = Action::Nothing;
    for c in text.chars() {
        last = t.handle_input(screen, c, buf, pos);
    }
    last
}

fn type_session(s: &mut Session, text: &str) {
    for c in text.chars() {
        s.process_character(c);
    }
}

fn row_text(screen: &Screen, x: usize, y: usize, len: usize) -> String {
    (0..len).map(|i| screen.cell_at(x + i, y).glyph as char).collect()
}

#[test]
fn history_keeps_the_ten_most_recent_commands() {
    let mut screen = Screen::new();
    let mut t = Terminal::new_fullscreen(&mut screen);
    let mut buf = ['\0'; 64];
    let mut pos = 0usize;
    for i in 0..12 {
        type_into(&mut t, &mut screen, &mut buf, &mut pos, &format!("c{}\n", i));
    }
    assert_eq!(t.history_len(), 10);
    for k in 0..10 {
        let expected = chars(&format!("c{}", 11 - k));
        assert_eq!(t.history_entry(k).unwrap(), &expected);
    }
    assert!(t.history_entry(10).is_none());
}

#[test]
fn history_with_fewer_than_ten_commands() {
    let mut screen = Screen::new();
    let mut t = Terminal::new_fullscreen(&mut screen);
    let mut buf = ['\0'; 64];
    let mut pos = 0usize;
    type_into(&mut t, &mut screen, &mut buf, &mut pos, "a\n\nb\n");
    assert_eq!(t.history_len(), 2);
    assert_eq!(t.history_entry(0).unwrap(), &chars("b"));
    assert_eq!(t.history_entry(1).unwrap(), &chars("a"));
}

#[test]
fn input_buffer_stops_at_63_characters() {
    let mut screen = Screen::new();
    let mut t = Terminal::new_fullscreen(&mut screen);
    let mut buf = ['\0'; 64];
    let mut pos = 0usize;
    for _ in 0..63 {
        t.handle_input(&mut screen, 'a', &mut buf, &mut pos);
    }
    assert_eq!(pos, 63);
    let before = buf;
    t.handle_input(&mut screen, 'b', &mut buf, &mut pos);
    assert_eq!(pos, 63);
    assert_eq!(buf, before);
    assert_eq!(buf[63], '\0');
    assert_eq!(buf[62], 'a');
}

#[test]
fn backspace_erases_last_character() {
    let mut screen = Screen::new();
    let mut t = Terminal::new_fullscreen(&mut screen);
    let mut buf = ['\0'; 64];
    let mut pos = 0usize;
    type_into(&mut t, &mut screen, &mut buf, &mut pos, "ab");
    assert_eq!(screen.cell_at(4, 0).glyph, b'b');
    t.handle_input(&mut screen, '\u{8}', &mut buf, &mut pos);
    assert_eq!(pos, 1);
    assert_eq!(buf[1], '\0');
    assert_eq!(screen.cell_at(4, 0).glyph, b' ');
    t.handle_input(&mut screen, '\u{8}', &mut buf, &mut pos);
    t.handle_input(&mut screen, '\u{8}', &mut buf, &mut pos);
    assert_eq!(pos, 0);
}

#[test]
fn echo_goes_after_the_prompt() {
    let mut screen = Screen::new();
    let mut t = Terminal::new_fullscreen(&mut screen);
    let mut buf = ['\0'; 64];
    let mut pos = 0usize;
    assert_eq!(row_text(&screen, 1, 0, 2), "$ ");
    type_into(&mut t, &mut screen, &mut buf, &mut pos, "xy");
    assert_eq!(row_text(&screen, 3, 0, 2), "xy");
    assert_eq!(screen.cell_at(3, 0).fg, Color::White);
}

#[test]
fn scrolling_clears_and_restarts_at_line_zero() {
    let mut s = start(DisplayConfig { mode: UiMode::Windowed }, false);
    type_session(&mut s, "info\n");
    assert_eq!(s.terminal.as_ref().unwrap().current_line(), 2);
    assert_eq!(s.screen.cell_at(22, 17).glyph, b'O');
    type_session(&mut s, "info\n");
    let t = s.terminal.as_ref().unwrap();
    assert_eq!(t.current_line(), 0);
    assert_eq!(row_text(&s.screen, 22, 16, 2), "$ ");
    assert_eq!(s.screen.cell_at(22, 17).glyph, b' ');
    assert_eq!(s.screen.cell_at(22, 19).glyph, b' ');
}

#[test]
fn fullscreen_scrolls_after_25_lines() {
    let mut screen = Screen::new();
    let mut t = Terminal::new_fullscreen(&mut screen);
    let mut buf = ['\0'; 64];
    let mut pos = 0usize;
    for _ in 0..12 {
        type_into(&mut t, &mut screen, &mut buf, &mut pos, "info\n");
    }
    assert_eq!(t.current_line(), 24);
    type_into(&mut t, &mut screen, &mut buf, &mut pos, "info\n");
    assert_eq!(t.current_line(), 0);
    assert_eq!(row_text(&screen, 1, 0, 2), "$ ");
    assert_eq!(screen.cell_at(1, 1).glyph, b' ');
}

#[test]
fn help_prints_the_command_list_then_the_prompt() {
    let mut s = start(DisplayConfig { mode: UiMode::Windowed }, false);
    type_session(&mut s, "help\n");
    // terminal window interior starts at (21, 16); text at column offset 1
    assert_eq!(row_text(&s.screen, 24, 16, 4), "help");
    assert_eq!(row_text(&s.screen, 22, 17, 37), &HELP_TEXT[..37]);
    assert_eq!(s.screen.cell_at(59, 17).glyph, b'|');
    assert_eq!(row_text(&s.screen, 22, 18, 2), "$ ");
    assert_eq!(s.terminal.as_ref().unwrap().current_line(), 2);
}

#[test]
fn windowed_when_already_windowed_only_answers() {
    let mut s = start(DisplayConfig { mode: UiMode::Windowed }, false);
    type_session(&mut s, "windowed\n");
    let text = ALREADY_WINDOWED_TEXT;
    assert_eq!(text, "Already in windowed mode");
    assert_eq!(row_text(&s.screen, 22, 17, text.len()), text);
    assert_eq!(s.config.mode, UiMode::Windowed);
    let t = s.terminal.as_ref().unwrap();
    assert_eq!(t.history_len(), 1);
    assert_eq!(t.current_line(), 2);
    assert_eq!(s.windows.active_window(), 2);
}

#[test]
fn three_d_on_the_full_grid_is_refused() {
    let mut s = start(DisplayConfig { mode: UiMode::FullscreenTerminal }, false);
    type_session(&mut s, "3d\n");
    assert_eq!(NO_3D_TEXT, "3D demo only available in windowed mode");
    assert_eq!(row_text(&s.screen, 1, 1, NO_3D_TEXT.len()), NO_3D_TEXT);
    assert!(s.demo.is_none());
    assert!(s.windows.get_window(0).is_none());
    assert_eq!(row_text(&s.screen, 1, 2, 2), "$ ");
}

#[test]
fn fullscreen_command_rebuilds_the_session() {
    let mut s = start(DisplayConfig { mode: UiMode::Windowed }, false);
    type_session(&mut s, "fullscreen\n");
    assert_eq!(s.config.mode, UiMode::FullscreenTerminal);
    let t = s.terminal.as_ref().unwrap();
    assert!(matches!(t.output(), TerminalOutput::Fullscreen));
    assert_eq!(t.history_len(), 0);
    assert_eq!(row_text(&s.screen, 1, 0, 2), "$ ");
    assert!(s.windows.get_window(0).is_none());
    type_session(&mut s, "windowed\n");
    assert_eq!(s.config.mode, UiMode::Windowed);
    assert_eq!(s.windows.get_window(2).unwrap().title, "Terminal");
}

#[test]
fn mode_and_info_and_unknown_answers() {
    let mut screen = Screen::new();
    let w = Window::new(0, 0, 80, 25, "t", Color::White);
    let mut t = Terminal::new_windowed(w, &mut screen);
    assert_eq!(t.execute_command(&mut screen, "mode"), ("UI Mode: Windowed", Action::Nothing));
    assert_eq!(t.execute_command(&mut screen, "  info "), ("OS Version 0.1.0", Action::Nothing));
    assert_eq!(
        t.execute_command(&mut screen, "Help"),
        ("Unknown command. Type 'help' for available commands.", Action::Nothing)
    );
    assert_eq!(t.execute_command(&mut screen, ""), ("", Action::Nothing));
    assert_eq!(t.execute_command(&mut screen, "3d"), ("Launched 3D demo window", Action::Launch3d));
    assert_eq!(t.execute_command(&mut screen, "fullscreen"), ("", Action::SwitchToFullscreen));
    let mut full = Terminal::new_fullscreen(&mut screen);
    assert_eq!(full.execute_command(&mut screen, "mode"), ("UI Mode: Fullscreen Terminal", Action::Nothing));
    assert_eq!(full.execute_command(&mut screen, "fullscreen"), ("Already in fullscreen mode", Action::Nothing));
    assert_eq!(full.execute_command(&mut screen, "windowed"), ("", Action::SwitchToWindowed));
}

#[test]
fn clear_command_resets_the_line_but_keeps_history() {
    let mut screen = Screen::new();
    let mut t = Terminal::new_fullscreen(&mut screen);
    let mut buf = ['\0'; 64];
    let mut pos = 0usize;
    type_into(&mut t, &mut screen, &mut buf, &mut pos, "info\n");
    assert_eq!(t.current_line(), 2);
    type_into(&mut t, &mut screen, &mut buf, &mut pos, "clear\n");
    assert_eq!(t.current_line(), 0);
    assert_eq!(t.history_len(), 2);
    assert_eq!(row_text(&screen, 1, 0, 2), "$ ");
    assert_eq!(screen.cell_at(1, 1).glyph, b' ');
}

#[test]
fn parsing_trims_unicode_white_space() {
    assert_eq!(parse_command(&chars("\t help\u{a0} ")), Command::Help);
    assert_eq!(parse_command(&chars("   ")), Command::Empty);
    assert_eq!(parse_command(&chars("he lp")), Command::Unknown);
    assert_eq!(trim_bounds(&chars("  ab  ")), (2, 4));
    assert_eq!(respond(Command::Clear, true), ("", Action::Nothing));
}

#[test]
fn line_beyond_ascii_runs_as_the_empty_command() {
    assert_eq!(parse_typed_line(&chars("help\u{e9}")), Command::Empty);
    assert_eq!(parse_typed_line(&chars(" help ")), Command::Help);
    let mut screen = Screen::new();
    let mut t = Terminal::new_fullscreen(&mut screen);
    let mut buf = ['\0'; 64];
    let mut pos = 0usize;
    type_into(&mut t, &mut screen, &mut buf, &mut pos, "x\u{e9}\n");
    // no answer: the prompt comes straight on the next line
    assert_eq!(t.current_line(), 1);
    assert_eq!(row_text(&screen, 1, 1, 2), "$ ");
    assert_eq!(screen.cell_at(3, 1).glyph, b' ');
    assert_eq!(t.history_len(), 1);
    assert_eq!(t.history_entry(0).unwrap(), &chars("x\u{e9}"));
}
