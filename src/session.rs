//! The kernel session: the grid, the windows, the terminal and the 3D demo,
//! owned in one place and driven one event at a time.
use vstd::prelude::*;
use vstd::string::StringSliceAdditionalSpecFns;
use crate::screen::{Cell, Color, Pos, Screen, blank_grid, fill_rect};
use crate::window_manager::{
    Window, WindowManager, add_result, draw_stack, window_print, window_cell, MAX_WINDOWS,
};
use crate::terminal::{
    Terminal, TerminalOutput, input_effect, output_print, PROMPT, BUFFER_SIZE,
};
use crate::command::Action;
use crate::config::{UiMode, DisplayConfig, set_ui_mode, get_current_ui_mode};
use crate::graphics::{Renderer3D, Object3D, create_cube, rotated, render_lines, abs, ANGLE_LIMIT, default_camera};
use crate::screen::SPACE;
use crate::keyboard::ESCAPE_SCANCODE;

verus! {

pub const MAIN_TITLE: &'static str = "Main Window";

pub const INFO_TITLE: &'static str = "System Info";

pub const TERMINAL_TITLE: &'static str = "Terminal";

pub const DEMO_TITLE: &'static str = "3D Graphics Demo";

pub const WELCOME_TEXT: &'static str = "Window Manager Demo";

pub const CPU_TEXT: &'static str = "CPU: x86_64";

pub const MEMORY_TEXT: &'static str = "Memory: 64MB";

pub const STATUS_TEXT: &'static str = "Status: Running";

pub const ESC_HINT_TEXT: &'static str = "Press ESC to close the demo...";

/// Per-frame rotation of the demo about x, y and z (0.05, 0.075, 0.035).
pub const DEMO_SPIN: (i64, i64, i64) = (500, 750, 350);

/// The windows of the windowed desktop, in the order they are added.
pub open spec fn main_window() -> Window {
    Window { x: 5, y: 3, width: 30, height: 10, title: MAIN_TITLE, color: Color::Cyan }
}

pub open spec fn info_window() -> Window {
    Window { x: 40, y: 5, width: 35, height: 8, title: INFO_TITLE, color: Color::Green }
}

pub open spec fn terminal_window() -> Window {
    Window { x: 20, y: 15, width: 40, height: 6, title: TERMINAL_TITLE, color: Color::White }
}

/// The window the 3D demo renders into.
pub open spec fn demo_window() -> Window {
    Window { x: 15, y: 4, width: 50, height: 20, title: DEMO_TITLE, color: Color::LightBlue }
}

/// The slots of the windowed desktop.
pub open spec fn desktop_slots() -> Seq<Option<Window>> {
    Seq::new(
        MAX_WINDOWS as nat,
        |i: int|
            if i == 0 {
                Some(main_window())
            } else if i == 1 {
                Some(info_window())
            } else if i == 2 {
                Some(terminal_window())
            } else {
                None
            },
    )
}

/// The grid of the windowed desktop before the terminal prints its prompt.
pub open spec fn desktop_grid() -> Map<Pos, Cell> {
    let g = draw_stack(blank_grid(), desktop_slots(), 2);
    let g = window_print(g, main_window(), 1, 3, WELCOME_TEXT.spec_bytes());
    let g = window_print(g, info_window(), 1, 1, CPU_TEXT.spec_bytes());
    let g = window_print(g, info_window(), 1, 2, MEMORY_TEXT.spec_bytes());
    window_print(g, info_window(), 1, 3, STATUS_TEXT.spec_bytes())
}

/// A running 3D demo.
pub struct Demo {
    pub window: Window,
    pub renderer: Renderer3D,
    pub cube: Object3D,
    pub frame_counter: u64,
}

impl Demo {
    pub open spec fn wf(&self) -> bool {
        &&& self.window.wf()
        &&& self.renderer.wf()
        &&& self.cube.wf()
    }
}

/// Everything the kernel draws and reads: the grid, the window registry,
/// the terminal with its input buffer, the display mode, the Escape flag
/// and the 3D demo while it runs.
pub struct Session {
    pub screen: Screen,
    pub windows: WindowManager,
    pub terminal: Option<Terminal>,
    pub config: DisplayConfig,
    pub esc_pressed: bool,
    pub buffer: [char; 64],
    pub buffer_pos: usize,
    pub demo: Option<Demo>,
}

impl Session {
    pub open spec fn wf(&self) -> bool {
        &&& self.screen.wf()
        &&& self.windows.wf()
        &&& (self.terminal matches Some(t) ==> t.wf())
        &&& self.buffer_pos < BUFFER_SIZE
        &&& (self.demo matches Some(d) ==> d.wf())
    }
}

/// Whether `s` is a freshly started session in the mode of `config`, with
/// the given Escape flag: windows with the terminal in the third, or one
/// terminal on the whole grid.
pub open spec fn started(config: DisplayConfig, esc_pressed: bool, s: Session) -> bool {
    &&& s.wf()
    &&& s.config == config
    &&& s.esc_pressed == esc_pressed
    &&& s.buffer_pos == 0
    &&& s.demo is None
    &&& s.terminal is Some
    &&& s.terminal->Some_0.history().len() == 0
    &&& s.terminal->Some_0.line() == 0
    &&& match config.mode {
        UiMode::Windowed => {
            &&& s.windows.slots() == desktop_slots()
            &&& s.windows.active() == 2
            &&& s.terminal->Some_0.target() == TerminalOutput::Windowed(terminal_window())
            &&& s.screen@ == output_print(
                desktop_grid(),
                TerminalOutput::Windowed(terminal_window()),
                1,
                1,
                PROMPT.spec_bytes(),
            )
        },
        UiMode::FullscreenTerminal => {
            &&& s.windows.slots() == Seq::new(MAX_WINDOWS as nat, |i: int| None::<Window>)
            &&& s.terminal->Some_0.target() == TerminalOutput::Fullscreen
            &&& s.screen@ == output_print(
                blank_grid(),
                TerminalOutput::Fullscreen,
                1,
                0,
                PROMPT.spec_bytes(),
            )
        },
    }
}

/// Whether `(s1, r)` is the outcome of launching the demo from `s0`: the
/// demo window takes the first free slot, becomes active, every window is
/// redrawn and the Escape hint is printed; with no free slot nothing changes.
pub open spec fn launched(s0: Session, s1: Session, r: Option<usize>) -> bool {
    &&& s1.wf()
    &&& add_result(s0.windows.slots(), demo_window(), s1.windows.slots(), r)
    &&& s1.terminal == s0.terminal
    &&& s1.config == s0.config
    &&& s1.esc_pressed == s0.esc_pressed
    &&& s1.buffer == s0.buffer
    &&& s1.buffer_pos == s0.buffer_pos
    &&& match r {
        Some(id) => {
            &&& s1.windows.active() == id
            &&& s1.demo is Some
            &&& s1.demo->Some_0.window == demo_window()
            &&& s1.demo->Some_0.renderer.camera == default_camera()
            &&& s1.demo->Some_0.renderer.rotation == (0i64, 0i64, 0i64)
            &&& s1.demo->Some_0.frame_counter == 0
            &&& s1.screen@ == window_print(
                draw_stack(s0.screen@, s1.windows.slots(), id as int),
                demo_window(),
                1,
                18,
                ESC_HINT_TEXT.spec_bytes(),
            )
        },
        None => {
            &&& s1.windows.active() == s0.windows.active()
            &&& s1.demo == s0.demo
            &&& s1.screen@ == s0.screen@
        },
    }
}

/// Builds the session for the mode of `config`: on a blank grid, either the
/// three desktop windows (the terminal's one active) with their text and a
/// terminal in the third, or one terminal on the whole grid.
pub fn start(config: DisplayConfig, esc_pressed: bool) -> (r: Session)
    ensures
        started(config, esc_pressed, r),
{
    let mut screen = Screen::new();
    let mut windows = WindowManager::new();
    match get_current_ui_mode(&config) {
        UiMode::Windowed => {
            screen.clear_screen();
            let window1 = Window::new(5, 3, 30, 10, MAIN_TITLE, Color::Cyan);
            let window2 = Window::new(40, 5, 35, 8, INFO_TITLE, Color::Green);
            let window3 = Window::new(20, 15, 40, 6, TERMINAL_TITLE, Color::White);
            let ghost empty = windows.slots();
            let id1 = windows.add_window(window1);
            assert(id1 == Some(0usize)) by {
                assert(empty[0] is None);
            }
            let ghost one = windows.slots();
            let id2 = windows.add_window(window2);
            assert(id2 == Some(1usize)) by {
                assert(one[1] is None);
                assert(one[0] is Some);
            }
            let ghost two = windows.slots();
            let id3 = windows.add_window(window3);
            assert(id3 == Some(2usize)) by {
                assert(two[2] is None);
                assert(two[0] is Some);
                assert(two[1] is Some);
            }
            assert(windows.slots() =~= desktop_slots());
            windows.set_active_window(2);
            windows.draw_all(&mut screen);
            window1.print_at(&mut screen, 1, 3, WELCOME_TEXT);
            window2.print_at(&mut screen, 1, 1, CPU_TEXT);
            window2.print_at(&mut screen, 1, 2, MEMORY_TEXT);
            window2.print_at(&mut screen, 1, 3, STATUS_TEXT);
            let terminal = Terminal::new_windowed(window3, &mut screen);
            Session {
                screen,
                windows,
                terminal: Some(terminal),
                config,
                esc_pressed,
                buffer: ['\0'; 64],
                buffer_pos: 0,
                demo: None,
            }
        },
        UiMode::FullscreenTerminal => {
            let terminal = Terminal::new_fullscreen(&mut screen);
            Session {
                screen,
                windows,
                terminal: Some(terminal),
                config,
                esc_pressed,
                buffer: ['\0'; 64],
                buffer_pos: 0,
                demo: None,
            }
        },
    }
}

} // verus!

verus! {

/// Opens the 3D demo: adds the demo window in the first free slot, makes it
/// active, redraws every window and prints the Escape hint. Returns the
/// window's id, or `None` with nothing changed when the registry is full.
/// The frames then come from `Session::demo_frame`.
pub fn launch_3d_demo(session: &mut Session) -> (r: Option<usize>)
    requires
        old(session).wf(),
    ensures
        launched(*old(session), *final(session), r),
{
    let window = Window::new(15, 4, 50, 20, DEMO_TITLE, Color::LightBlue);
    let window_id = match session.windows.add_window(window) {
        Some(id) => id,
        None => return None,
    };
    session.windows.set_active_window(window_id);
    session.windows.draw_all(&mut session.screen);
    let window = match session.windows.get_window(window_id) {
        Some(w) => w,
        None => return None,
    };
    let renderer = Renderer3D::new();
    let cube = create_cube();
    window.print_at(&mut session.screen, 1, 18, ESC_HINT_TEXT);
    session.demo = Some(Demo { window, renderer, cube, frame_counter: 0 });
    Some(window_id)
}

} // verus!

verus! {

/// Writes bytes into a fixed-size buffer from the start, dropping whatever
/// no longer fits.
pub struct ByteWriter {
    buf: Vec<u8>,
    cursor: usize,
}

impl ByteWriter {
    pub closed spec fn bytes(&self) -> Seq<u8> {
        self.buf@
    }

    pub closed spec fn cursor(&self) -> int {
        self.cursor as int
    }

    pub open spec fn wf(&self) -> bool {
        0 <= self.cursor() <= self.bytes().len()
    }

    /// A buffer of `size` zero bytes, written from its start.
    pub fn new(size: usize) -> (r: ByteWriter)
        ensures
            r.wf(),
            r.bytes() == Seq::new(size as nat, |i: int| 0u8),
            r.cursor() == 0,
    {
        let mut buf: Vec<u8> = Vec::new();
        let mut i: usize = 0;
        while i < size
            invariant
                i <= size,
                buf@ == Seq::new(i as nat, |j: int| 0u8),
            decreases size - i,
        {
            buf.push(0);
            i = i + 1;
            assert(buf@ =~= Seq::new(i as nat, |j: int| 0u8));
        }
        ByteWriter { buf, cursor: 0 }
    }

    /// Copies as much of `s` as fits after what was written before.
    pub fn write_bytes(&mut self, s: &[u8])
        requires
            old(self).wf(),
        ensures
            final(self).wf(),
            final(self).bytes().len() == old(self).bytes().len(),
            ({
                let room = old(self).bytes().len() - old(self).cursor();
                let k = if s@.len() < room { s@.len() as int } else { room };
                &&& final(self).cursor() == old(self).cursor() + k
                &&& final(self).bytes() == old(self).bytes().take(old(self).cursor()) + s@.take(k)
                    + old(self).bytes().skip(old(self).cursor() + k)
            }),
    {
        let len = self.buf.len();
        let room = len - self.cursor;
        let k = if s.len() < room {
            s.len()
        } else {
            room
        };
        let ghost b0 = self.buf@;
        let ghost c0 = self.cursor as int;
        let mut i: usize = 0;
        while i < k
            invariant
                k <= s@.len(),
                c0 + k <= b0.len(),
                b0.len() == self.buf@.len(),
                len == b0.len(),
                self.cursor == c0,
                i <= k,
                self.buf@ == b0.take(c0) + s@.take(i as int) + b0.skip(c0 + i),
            decreases k - i,
        {
            self.buf.set(self.cursor + i, s[i]);
            i = i + 1;
            assert(self.buf@ =~= b0.take(c0) + s@.take(i as int) + b0.skip(c0 + i));
        }
        self.cursor = self.cursor + k;
    }

    /// The buffer, written part and zero tail.
    pub fn into_bytes(self) -> (r: Vec<u8>)
        ensures
            r@ == self.bytes(),
    {
        self.buf
    }
}

/// The decimal digits of `n`, most significant first.
pub open spec fn decimal(n: nat) -> Seq<u8>
    decreases n,
{
    if n < 10 {
        seq![(48 + n) as u8]
    } else {
        decimal(n / 10).push((48 + n % 10) as u8)
    }
}

/// The decimal digits of `n`.
pub fn decimal_bytes(n: u64) -> (r: Vec<u8>)
    ensures
        r@ == decimal(n as nat),
    decreases n,
{
    if n < 10 {
        vec![48 + n as u8]
    } else {
        let mut v = decimal_bytes(n / 10);
        v.push(48 + (n % 10) as u8);
        v
    }
}

pub const FRAME_PREFIX: &'static str = "Frame: ";

/// Width of the frame counter field.
pub const FRAME_LABEL_SIZE: usize = 16;

/// The frame counter field: `Frame: ` and the count in decimal, cut to
/// sixteen bytes and padded with zero bytes.
pub open spec fn frame_label(n: nat) -> Seq<u8> {
    let text = FRAME_PREFIX.spec_bytes() + decimal(n);
    Seq::new(FRAME_LABEL_SIZE as nat, |i: int| if i < text.len() { text[i] } else { 0u8 })
}

proof fn lemma_frame_prefix_width()
    ensures
        FRAME_PREFIX.spec_bytes().len() == 7,
{
    reveal_strlit("Frame: ");
    vstd::string::is_ascii_spec_bytes(FRAME_PREFIX);
}

/// The frame counter field for frame `n`.
pub fn frame_label_bytes(n: u64) -> (r: Vec<u8>)
    ensures
        r@ == frame_label(n as nat),
{
    let mut w = ByteWriter::new(FRAME_LABEL_SIZE);
    proof {
        lemma_frame_prefix_width();
    }
    w.write_bytes(FRAME_PREFIX.as_bytes());
    let digits = decimal_bytes(n);
    w.write_bytes(digits.as_slice());
    let r = w.into_bytes();
    assert(r@ =~= frame_label(n as nat));
    r
}

} // verus!

verus! {

/// The grid after blanking the demo viewport of `w`: interior columns 2 to
/// 47 and rows 2 to 17, clipped to the interior.
pub open spec fn viewport_clear(g: Map<Pos, Cell>, w: Window) -> Map<Pos, Cell> {
    let x1 = if w.width < 50 { w.x + w.width - 1 } else { w.x + 49 };
    let y1 = if w.height < 20 { w.y + w.height - 1 } else { w.y + 19 };
    fill_rect(g, w.x + 3, w.y + 3, x1, y1, window_cell(w, SPACE))
}

/// The renderer after one frame's turn: `DEMO_SPIN` added, unless that
/// would take an angle past `ANGLE_LIMIT`.
pub open spec fn spun(r: Renderer3D) -> Renderer3D {
    if abs(r.rotation.0 + DEMO_SPIN.0) <= ANGLE_LIMIT && abs(r.rotation.1 + DEMO_SPIN.1)
        <= ANGLE_LIMIT && abs(r.rotation.2 + DEMO_SPIN.2) <= ANGLE_LIMIT {
        rotated(r, DEMO_SPIN.0 as int, DEMO_SPIN.1 as int, DEMO_SPIN.2 as int)
    } else {
        r
    }
}

impl Session {
    /// One frame of the running demo. When Escape has been seen the demo
    /// ends and `false` is returned. Otherwise the viewport is blanked, the
    /// cube turned and rendered, and the incremented frame count shown at
    /// interior (32, 1); `true` is returned.
    pub fn demo_frame(&mut self) -> (r: bool)
        requires
            old(self).wf(),
            old(self).demo is Some,
        ensures
            final(self).wf(),
            final(self).windows == old(self).windows,
            final(self).terminal == old(self).terminal,
            final(self).config == old(self).config,
            final(self).esc_pressed == old(self).esc_pressed,
            final(self).buffer == old(self).buffer,
            final(self).buffer_pos == old(self).buffer_pos,
            r == !old(self).esc_pressed,
            old(self).esc_pressed ==> final(self).demo is None && final(self).screen@ == old(
                self,
            ).screen@,
            !old(self).esc_pressed ==> ({
                let d0 = old(self).demo->Some_0;
                let d1 = final(self).demo->Some_0;
                let n = if d0.frame_counter < u64::MAX {
                    d0.frame_counter + 1
                } else {
                    d0.frame_counter as int
                };
                &&& final(self).demo is Some
                &&& d1.window == d0.window
                &&& d1.cube == d0.cube
                &&& d1.renderer == spun(d0.renderer)
                &&& d1.frame_counter == n
                &&& final(self).screen@ == window_print(
                    render_lines(
                        viewport_clear(old(self).screen@, d0.window),
                        d1.renderer,
                        d0.window,
                        d0.cube.lines@,
                    ),
                    d0.window,
                    32,
                    1,
                    frame_label(n as nat),
                )
            }),
    {
        if self.esc_pressed {
            self.demo = None;
            return false;
        }
        let mut demo = self.demo.take().unwrap();
        let w = demo.window;
        let x1 = if w.width < 50 {
            w.x + w.width - 1
        } else {
            w.x + 49
        };
        let y1 = if w.height < 20 {
            w.y + w.height - 1
        } else {
            w.y + 19
        };
        self.screen.fill(w.x + 3, w.y + 3, x1, y1, Cell { glyph: SPACE, fg: w.color, bg: Color::Black });
        let (rx, ry, rz) = demo.renderer.rotation;
        let (sx, sy, sz) = DEMO_SPIN;
        if -ANGLE_LIMIT - sx <= rx && rx <= ANGLE_LIMIT - sx && -ANGLE_LIMIT - sy <= ry && ry
            <= ANGLE_LIMIT - sy && -ANGLE_LIMIT - sz <= rz && rz <= ANGLE_LIMIT - sz {
            demo.renderer.rotate(sx, sy, sz);
        }
        demo.renderer.render_object(&w, &mut self.screen, &demo.cube);
        if demo.frame_counter < u64::MAX {
            demo.frame_counter = demo.frame_counter + 1;
        }
        let label = frame_label_bytes(demo.frame_counter);
        w.print_bytes(&mut self.screen, 32, 1, label.as_slice());
        self.demo = Some(demo);
        true
    }
}

} // verus!

verus! {

/// Whether `s1` follows from the session `s0` once its terminal has taken a
/// character and left terminal `t`, grid `g`, buffer `b` at `p`, and action
/// `r`: nothing more, the demo launched, or a fresh session in the other mode.
pub open spec fn after_action(
    s0: Session,
    s1: Session,
    t: Terminal,
    g: Map<Pos, Cell>,
    b: Seq<char>,
    p: usize,
    r: Action,
) -> bool {
    match r {
        Action::Nothing => {
            &&& s1.wf()
            &&& s1.terminal == Some(t)
            &&& s1.screen@ == g
            &&& s1.buffer@ == b
            &&& s1.buffer_pos == p
            &&& s1.windows == s0.windows
            &&& s1.config == s0.config
            &&& s1.esc_pressed == s0.esc_pressed
            &&& s1.demo == s0.demo
        },
        Action::Launch3d => exists|mid: Session, id: Option<usize>|
            {
                &&& mid.terminal == Some(t)
                &&& mid.screen@ == g
                &&& mid.buffer@ == b
                &&& mid.buffer_pos == p
                &&& mid.windows == s0.windows
                &&& mid.config == s0.config
                &&& mid.esc_pressed == s0.esc_pressed
                &&& mid.demo == s0.demo
                &&& #[trigger] launched(mid, s1, id)
            },
        Action::SwitchToWindowed => started(
            DisplayConfig { mode: UiMode::Windowed },
            s0.esc_pressed,
            s1,
        ),
        Action::SwitchToFullscreen => started(
            DisplayConfig { mode: UiMode::FullscreenTerminal },
            s0.esc_pressed,
            s1,
        ),
    }
}

} // verus!

verus! {

/// What a decoded character does to the session: ignored while the demo
/// runs or when no terminal exists, otherwise fed to the terminal, whose
/// action is then carried out.
pub open spec fn character_effect(s0: Session, s1: Session, c: char) -> bool {
    if s0.demo is Some || s0.terminal is None {
        s1 == s0
    } else {
        exists|t: Terminal, g: Map<Pos, Cell>, b: Seq<char>, p: usize, r: Action|
            #[trigger] input_effect(
                s0.terminal->Some_0,
                t,
                s0.screen@,
                g,
                c,
                s0.buffer@,
                s0.buffer_pos,
                b,
                p,
                r,
            ) && after_action(s0, s1, t, g, b, p, r)
    }
}

/// What one key transition does: the decoded character, if any, acts as in
/// `character_effect`, and the Escape scancode sets the Escape flag.
pub open spec fn key_effect(s0: Session, s1: Session, decoded: Option<char>, scancode: u8) -> bool {
    &&& s1.esc_pressed == (s0.esc_pressed || scancode == ESCAPE_SCANCODE)
    &&& match decoded {
        None => s1 == (Session { esc_pressed: s1.esc_pressed, ..s0 }),
        Some(c) => exists|mid: Session|
            #[trigger] character_effect(s0, mid, c) && s1 == (Session {
                esc_pressed: s1.esc_pressed,
                ..mid
            }),
    }
}

impl Session {
    /// Feeds a decoded character to the terminal and carries out the action
    /// it asks for; ignored while the demo runs.
    pub fn process_character(&mut self, c: char)
        requires
            old(self).wf(),
        ensures
            final(self).wf(),
            final(self).esc_pressed == old(self).esc_pressed,
            character_effect(*old(self), *final(self), c),
    {
        if self.demo.is_some() {
            return;
        }
        let ghost s0 = *self;
        let mut terminal = match self.terminal.take() {
            Some(t) => t,
            None => return,
        };
        let action = terminal.handle_input(&mut self.screen, c, &mut self.buffer, &mut self.buffer_pos);
        let ghost t = terminal;
        let ghost g = self.screen@;
        let ghost b = self.buffer@;
        let ghost p = self.buffer_pos;
        self.terminal = Some(terminal);
        assert(input_effect(s0.terminal->Some_0, t, s0.screen@, g, c, s0.buffer@, s0.buffer_pos, b, p, action));
        match action {
            Action::Nothing => {},
            Action::Launch3d => {
                let ghost mid = *self;
                let id = launch_3d_demo(self);
                assert(launched(mid, *self, id));
            },
            Action::SwitchToWindowed => {
                set_ui_mode(&mut self.config, UiMode::Windowed);
                *self = start(self.config, self.esc_pressed);
            },
            Action::SwitchToFullscreen => {
                set_ui_mode(&mut self.config, UiMode::FullscreenTerminal);
                *self = start(self.config, self.esc_pressed);
            },
        }
        assert(after_action(s0, *self, t, g, b, p, action));
    }

    /// One key transition: a decoded character goes to `process_character`,
    /// and the Escape scancode sets the Escape flag (whatever was decoded).
    pub fn handle_key(&mut self, decoded: Option<char>, scancode: u8)
        requires
            old(self).wf(),
        ensures
            final(self).wf(),
            key_effect(*old(self), *final(self), decoded, scancode),
    {
        let ghost s0 = *self;
        if let Some(c) = decoded {
            self.process_character(c);
        }
        let ghost mid = *self;
        if scancode == ESCAPE_SCANCODE {
            self.esc_pressed = true;
        }
        proof {
            if let Some(c) = decoded {
                assert(character_effect(s0, mid, c));
            }
        }
    }
}

} // verus!
