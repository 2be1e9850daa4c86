use console_core::config::{get_current_ui_mode, set_ui_mode, DisplayConfig, UiMode};
use console_core::interrupts::InterruptIndex;
use console_core::keyboard::{
    decode_scancode, handle_keyboard_interrupt, is_esc_pressed, set_esc_pressed, KeyDecoder,
};
use console_core::session::{decimal_bytes, frame_label_bytes, launch_3d_demo, start, ByteWriter};
use console_core::terminal::{init_terminal_fullscreen, init_terminal_windowed, TerminalOutput};
use console_core::screen::Color;
use console_core::window_manager::Window;

fn row_text(s: &console_core::session::Session, x: usize, y: usize, len: usize) -> String {
    (0..len).map(|i| s.screen.cell_at(x + i, y).glyph as char).collect()
}

#[test]
fn windowed_start_builds_three_windows() {
    let s = start(DisplayConfig::new(), false);
    assert_eq!(s.windows.get_window(0).unwrap().title, "Main Window");
    assert_eq!(s.windows.get_window(1).unwrap().title, "System Info");
    assert_eq!(s.windows.get_window(2).unwrap().title, "Terminal");
    assert!(s.windows.get_window(3).is_none());
    assert_eq!(s.windows.active_window(), 2);
    assert_eq!(row_text(&s, 7, 7, 19), "Window Manager Demo");
    assert_eq!(row_text(&s, 42, 7, 11), "CPU: x86_64");
    assert_eq!(row_text(&s, 42, 9, 15), "Status: Running");
    assert_eq!(row_text(&s, 22, 17, 2), "$ ");
}

#[test]
fn three_d_command_launches_the_demo_until_escape() {
    let mut s = start(DisplayConfig::new(), false);
    for c in "3d\n".chars() {
        s.process_character(c);
    }
    assert!(s.demo.is_some());
    assert_eq!(s.windows.active_window(), 3);
    // the hint's row is the demo window's bottom border, so it is dropped
    assert_eq!(row_text(&s, 17, 23, 3), "---");
    assert!(s.demo_frame());
    assert_eq!(s.demo.as_ref().unwrap().frame_counter, 1);
    assert_eq!(row_text(&s, 15 + 1 + 32, 4 + 1 + 1, 8), "Frame: 1");
    assert_eq!(s.demo.as_ref().unwrap().renderer.rotation, (500, 750, 350));
    // characters are ignored while the demo runs
    s.process_character('x');
    assert_eq!(s.buffer_pos, 0);
    set_esc_pressed(&mut s, true);
    assert_eq!(is_esc_pressed(&s), Some(true));
    assert!(!s.demo_frame());
    assert!(s.demo.is_none());
}

#[test]
fn launch_fails_when_the_registry_is_full() {
    let mut s = start(DisplayConfig::new(), false);
    for i in 0..7 {
        assert_eq!(launch_3d_demo(&mut s), Some(3 + i));
        s.demo = None;
    }
    assert_eq!(launch_3d_demo(&mut s), None);
    assert!(s.demo.is_none());
}

#[test]
fn keyboard_bytes_reach_the_terminal() {
    let mut s = start(DisplayConfig::new(), false);
    let mut decoder = KeyDecoder::new();
    handle_keyboard_interrupt(&mut s, &mut decoder, 0x23);
    handle_keyboard_interrupt(&mut s, &mut decoder, 0xA3);
    assert_eq!(s.buffer_pos, 1);
    assert_eq!(s.buffer[0], 'h');
    assert!(!s.esc_pressed);
    handle_keyboard_interrupt(&mut s, &mut decoder, 0x01);
    assert!(s.esc_pressed);
}

#[test]
fn decoder_gives_characters_on_key_press_only() {
    let mut decoder = KeyDecoder::new();
    assert_eq!(decode_scancode(&mut decoder, 0x23), Some('h'));
    assert_eq!(decode_scancode(&mut decoder, 0xA3), None);
    assert_eq!(decode_scancode(&mut decoder, 0x1C), Some('\n'));
}

#[test]
fn handle_key_records_escape_without_a_character() {
    let mut s = start(DisplayConfig::new(), false);
    s.handle_key(None, 0x01);
    assert!(s.esc_pressed);
    s.handle_key(Some('a'), 0x1E);
    assert_eq!(s.buffer[0], 'a');
    assert!(s.esc_pressed);
}

#[test]
fn ui_mode_setting() {
    let mut c = DisplayConfig::new();
    assert_eq!(get_current_ui_mode(&c), UiMode::Windowed);
    set_ui_mode(&mut c, UiMode::FullscreenTerminal);
    assert_eq!(get_current_ui_mode(&c), UiMode::FullscreenTerminal);
}

#[test]
fn interrupt_vectors() {
    assert_eq!(InterruptIndex::Timer.as_u8(), 32);
    assert_eq!(InterruptIndex::Keyboard.as_u8(), 33);
    assert_eq!(InterruptIndex::Keyboard.as_usize(), 33);
}

#[test]
fn byte_writer_drops_what_does_not_fit() {
    let mut w = ByteWriter::new(5);
    w.write_bytes(b"abc");
    w.write_bytes(b"defg");
    assert_eq!(w.into_bytes(), b"abcde".to_vec());
    assert_eq!(decimal_bytes(0), b"0".to_vec());
    assert_eq!(decimal_bytes(1907), b"1907".to_vec());
    let label = frame_label_bytes(12);
    assert_eq!(&label[..9], b"Frame: 12");
    assert_eq!(label.len(), 16);
    assert!(label[9..].iter().all(|&b| b == 0));
    let long = frame_label_bytes(u64::MAX);
    assert_eq!(&long[..], b"Frame: 184467440");
}

#[test]
fn terminal_can_be_rebound() {
    let mut s = start(DisplayConfig::new(), false);
    init_terminal_fullscreen(&mut s);
    assert!(matches!(s.terminal.as_ref().unwrap().output(), TerminalOutput::Fullscreen));
    assert_eq!(row_text(&s, 1, 0, 2), "$ ");
    let w = Window::new(0, 0, 20, 5, "t", Color::White);
    init_terminal_windowed(&mut s, w);
    assert!(matches!(s.terminal.as_ref().unwrap().output(), TerminalOutput::Windowed(_)));
    assert_eq!(row_text(&s, 2, 2, 2), "$ ");
}
