//! The line-editing terminal: input buffer, history, output line and prompt.
use vstd::prelude::*;
use vstd::string::StringSliceAdditionalSpecFns;
use crate::screen::{Cell, Color, Pos, Screen, SCREEN_WIDTH, SCREEN_HEIGHT, SPACE, put_row, blank_grid};
use crate::window_manager::{Window, window_print, window_clear};
use crate::session::Session;
use crate::command::{
    Action, Command, command_of, trim, response_of, action_of, parse_command, respond, chars_of,
    line_command, parse_typed_line,
};

verus! {

/// Number of commands the history keeps.
pub const MAX_HISTORY: usize = 10;

/// Capacity of the input buffer; at most one less is ever stored.
pub const BUFFER_SIZE: usize = 64;

/// The prompt printed before each command line.
pub const PROMPT: &'static str = "$ ";

/// The backspace character.
pub const BACKSPACE: char = '\u{8}';

/// Where a terminal prints: inside a window, or straight onto the grid.
#[derive(Clone, Copy, Debug)]
pub enum TerminalOutput {
    Windowed(Window),
    Fullscreen,
}

pub open spec fn output_wf(out: TerminalOutput) -> bool {
    match out {
        TerminalOutput::Windowed(w) => w.wf(),
        TerminalOutput::Fullscreen => true,
    }
}

/// The grid after printing `bytes` at `(x, y)` of the output: window-relative
/// and clipped for a window; at grid coordinates, white on black, otherwise.
pub open spec fn output_print(
    g: Map<Pos, Cell>,
    out: TerminalOutput,
    x: int,
    y: int,
    bytes: Seq<u8>,
) -> Map<Pos, Cell> {
    match out {
        TerminalOutput::Windowed(w) => window_print(g, w, x, y, bytes),
        TerminalOutput::Fullscreen => put_row(
            g,
            x,
            y,
            SCREEN_WIDTH as int,
            bytes,
            Color::White,
            Color::Black,
        ),
    }
}

/// The grid after clearing the output: a window's interior, or the whole grid.
pub open spec fn output_clear(g: Map<Pos, Cell>, out: TerminalOutput) -> Map<Pos, Cell> {
    match out {
        TerminalOutput::Windowed(w) => window_clear(g, w),
        TerminalOutput::Fullscreen => blank_grid(),
    }
}

/// Number of output lines before the output scrolls.
pub open spec fn max_height(out: TerminalOutput) -> int {
    match out {
        TerminalOutput::Windowed(w) => w.height - 2,
        TerminalOutput::Fullscreen => SCREEN_HEIGHT as int,
    }
}

/// The history after recording `e`: `e` first, then the older entries, the
/// oldest dropped beyond `MAX_HISTORY`.
pub open spec fn push_history(h: Seq<Seq<char>>, e: Seq<char>) -> Seq<Seq<char>> {
    if h.len() < MAX_HISTORY {
        seq![e] + h
    } else {
        seq![e] + h.take(MAX_HISTORY - 1)
    }
}

/// The bytes echoed for a typed character: the character itself when it is
/// ASCII, nothing otherwise.
pub open spec fn echo_bytes(c: char) -> Seq<u8> {
    if (c as u32) < 128 {
        seq![(c as u32) as u8]
    } else {
        Seq::empty()
    }
}

/// The grid and output line after a command of kind `cmd` was read at line
/// `line` and answered: the command's own effect, then its answer, if any,
/// on the current line, which then moves down one.
pub open spec fn answered(
    g: Map<Pos, Cell>,
    out: TerminalOutput,
    line: int,
    cmd: Command,
) -> (Map<Pos, Cell>, int) {
    let (g1, l1) = if cmd == Command::Clear {
        (output_clear(g, out), 0int)
    } else {
        (g, line)
    };
    let resp = response_of(cmd, out is Windowed).spec_bytes();
    if resp.len() > 0 {
        (output_print(g1, out, 1, l1, resp), l1 + 1)
    } else {
        (g1, l1)
    }
}

/// The grid and output line once a command of kind `cmd` read at line
/// `line` is done: answered, scrolled, and the prompt printed.
pub open spec fn finish_command(
    g: Map<Pos, Cell>,
    out: TerminalOutput,
    line: int,
    cmd: Command,
) -> (Map<Pos, Cell>, int) {
    let (g2, l2) = answered(g, out, line, cmd);
    let (g3, l3) = scroll(g2, out, l2);
    (output_print(g3, out, 1, l3, PROMPT.spec_bytes()), l3)
}

/// Scrolling: once `line` reaches the output's height, the output is
/// cleared and the line starts over at 0.
pub open spec fn scroll(g: Map<Pos, Cell>, out: TerminalOutput, line: int) -> (Map<Pos, Cell>, int) {
    if line >= max_height(out) {
        (output_clear(g, out), 0int)
    } else {
        (g, line)
    }
}

/// A typed character: stored and echoed after the prompt while the buffer
/// has room for it and one more; otherwise nothing changes.
pub open spec fn char_effect(
    t0: Terminal,
    t1: Terminal,
    g0: Map<Pos, Cell>,
    g1: Map<Pos, Cell>,
    c: char,
    b0: Seq<char>,
    pos0: usize,
    b1: Seq<char>,
    pos1: usize,
) -> bool {
    &&& t1 == t0
    &&& if pos0 < BUFFER_SIZE - 1 {
        &&& b1 == b0.update(pos0 as int, c)
        &&& pos1 == pos0 + 1
        &&& g1 == output_print(
            g0,
            t0.target(),
            PROMPT.spec_bytes().len() + pos0 + 1,
            t0.line(),
            echo_bytes(c),
        )
    } else {
        &&& b1 == b0
        &&& pos1 == pos0
        &&& g1 == g0
    }
}

/// A backspace: the last buffered character is dropped and its cell
/// blanked; with an empty buffer nothing changes.
pub open spec fn backspace_effect(
    t0: Terminal,
    t1: Terminal,
    g0: Map<Pos, Cell>,
    g1: Map<Pos, Cell>,
    b0: Seq<char>,
    pos0: usize,
    b1: Seq<char>,
    pos1: usize,
) -> bool {
    &&& t1 == t0
    &&& if pos0 > 0 {
        &&& b1 == b0.update(pos0 - 1, '\0')
        &&& pos1 == pos0 - 1
        &&& g1 == output_print(
            g0,
            t0.target(),
            1 + PROMPT.spec_bytes().len() + pos0 - 1,
            t0.line(),
            seq![SPACE],
        )
    } else {
        &&& b1 == b0
        &&& pos1 == pos0
        &&& g1 == g0
    }
}

/// A newline: a non-empty line goes to the history, the buffer is emptied,
/// the output moves to the next line and the line's command (see
/// `line_command`) runs there.
pub open spec fn newline_effect(
    t0: Terminal,
    t1: Terminal,
    g0: Map<Pos, Cell>,
    g1: Map<Pos, Cell>,
    b0: Seq<char>,
    pos0: usize,
    b1: Seq<char>,
    pos1: usize,
    r: Action,
) -> bool {
    let typed = b0.subrange(0, pos0 as int);
    let cmd = line_command(typed);
    &&& t1.target() == t0.target()
    &&& t1.history() == if pos0 > 0 {
        push_history(t0.history(), typed)
    } else {
        t0.history()
    }
    &&& b1 == Seq::new(BUFFER_SIZE as nat, |j: int| '\0')
    &&& pos1 == 0
    &&& (g1, t1.line()) == finish_command(g0, t0.target(), t0.line() + 1, cmd)
    &&& r == action_of(cmd, t0.target() is Windowed)
}

/// What one typed character does to the terminal, the grid and the input
/// buffer, with the action handed back (see `Terminal::handle_input`).
pub open spec fn input_effect(
    t0: Terminal,
    t1: Terminal,
    g0: Map<Pos, Cell>,
    g1: Map<Pos, Cell>,
    c: char,
    b0: Seq<char>,
    pos0: usize,
    b1: Seq<char>,
    pos1: usize,
    r: Action,
) -> bool {
    &&& t1.wf()
    &&& t1.target() == t0.target()
    &&& pos1 < BUFFER_SIZE
    &&& c == '\n' ==> newline_effect(t0, t1, g0, g1, b0, pos0, b1, pos1, r)
    &&& c == BACKSPACE ==> backspace_effect(t0, t1, g0, g1, b0, pos0, b1, pos1) && r == Action::Nothing
    &&& c != '\n' && c != BACKSPACE ==> char_effect(t0, t1, g0, g1, c, b0, pos0, b1, pos1) && r
        == Action::Nothing
}

proof fn lemma_prompt_width()
    ensures
        PROMPT.spec_bytes().len() == 2,
{
    reveal_strlit("$ ");
    vstd::string::is_ascii_spec_bytes(PROMPT);
}

/// A terminal session bound to one output.
pub struct Terminal {
    pub output: TerminalOutput,
    history: Vec<Vec<char>>,
    current_line: usize,
    prompt: &'static str,
}

impl Terminal {
    /// The recorded commands, most recent first.
    pub closed spec fn history(&self) -> Seq<Seq<char>> {
        self.history@.map_values(|v: Vec<char>| v@)
    }

    /// The output line that input goes to.
    pub closed spec fn line(&self) -> int {
        self.current_line as int
    }

    /// Where the terminal prints.
    pub closed spec fn target(&self) -> TerminalOutput {
        self.output
    }

    pub closed spec fn prompt(&self) -> &'static str {
        self.prompt
    }

    /// A bound output, at most ten history entries, the output line within
    /// the grid, and the standard prompt.
    pub open spec fn wf(&self) -> bool {
        self.wf_below(SCREEN_HEIGHT as int)
    }

    /// `wf` with the output line at most `bound`; while a command runs the
    /// line may pass the grid by two before the output scrolls.
    pub open spec fn wf_below(&self, bound: int) -> bool {
        &&& output_wf(self.target())
        &&& self.history().len() <= MAX_HISTORY
        &&& 0 <= self.line() <= bound
        &&& self.prompt() == PROMPT
    }

    /// A terminal in `window`, its prompt printed on the window's second
    /// interior row.
    pub fn new_windowed(window: Window, screen: &mut Screen) -> (r: Terminal)
        requires
            window.wf(),
            old(screen).wf(),
        ensures
            r.wf(),
            r.target() == TerminalOutput::Windowed(window),
            r.history() == Seq::<Seq<char>>::empty(),
            r.line() == 0,
            final(screen).wf(),
            final(screen)@ == output_print(old(screen)@, r.target(), 1, 1, PROMPT.spec_bytes()),
    {
        let t = Terminal {
            output: TerminalOutput::Windowed(window),
            history: Vec::new(),
            current_line: 0,
            prompt: PROMPT,
        };
        assert(t.history() =~= Seq::<Seq<char>>::empty());
        t.print_at(screen, 1, 1, PROMPT.as_bytes());
        t
    }

    /// A terminal on the whole grid, which it clears before printing its
    /// prompt on the first row.
    pub fn new_fullscreen(screen: &mut Screen) -> (r: Terminal)
        requires
            old(screen).wf(),
        ensures
            r.wf(),
            r.target() == TerminalOutput::Fullscreen,
            r.history() == Seq::<Seq<char>>::empty(),
            r.line() == 0,
            final(screen).wf(),
            final(screen)@ == output_print(blank_grid(), r.target(), 1, 0, PROMPT.spec_bytes()),
    {
        screen.clear_screen();
        let t = Terminal {
            output: TerminalOutput::Fullscreen,
            history: Vec::new(),
            current_line: 0,
            prompt: PROMPT,
        };
        assert(t.history() =~= Seq::<Seq<char>>::empty());
        t.print_at(screen, 1, 0, PROMPT.as_bytes());
        t
    }

    /// Where the terminal prints.
    pub fn output(&self) -> (r: TerminalOutput)
        ensures
            r == self.target(),
    {
        self.output
    }

    /// The output line that input goes to.
    pub fn current_line(&self) -> (r: usize)
        ensures
            r == self.line(),
    {
        self.current_line
    }

    /// Number of recorded commands.
    pub fn history_len(&self) -> (r: usize)
        ensures
            r == self.history().len(),
    {
        self.history.len()
    }

    /// The `i`-th most recent command, if recorded.
    pub fn history_entry(&self, i: usize) -> (r: Option<&Vec<char>>)
        ensures
            r matches Some(e) ==> i < self.history().len() && e@ == self.history()[i as int],
            r is None ==> i >= self.history().len(),
    {
        if i < self.history.len() {
            Some(&self.history[i])
        } else {
            None
        }
    }

    fn print_at(&self, screen: &mut Screen, x_offset: usize, y_offset: usize, bytes: &[u8])
        requires
            output_wf(self.target()),
            old(screen).wf(),
        ensures
            final(screen).wf(),
            final(screen)@ == output_print(
                old(screen)@,
                self.target(),
                x_offset as int,
                y_offset as int,
                bytes@,
            ),
    {
        match &self.output {
            TerminalOutput::Windowed(window) => {
                window.print_bytes(screen, x_offset, y_offset, bytes);
            },
            TerminalOutput::Fullscreen => {
                screen.write_row(x_offset, y_offset, SCREEN_WIDTH, bytes, Color::White, Color::Black);
            },
        }
    }

    /// Clears the output and starts again at line 0; the history stays.
    pub fn clear(&mut self, screen: &mut Screen)
        requires
            old(self).wf_below(SCREEN_HEIGHT + 2),
            old(screen).wf(),
        ensures
            final(self).wf(),
            final(self).target() == old(self).target(),
            final(self).history() == old(self).history(),
            final(self).line() == 0,
            final(screen).wf(),
            final(screen)@ == output_clear(old(screen)@, old(self).target()),
    {
        match &self.output {
            TerminalOutput::Windowed(window) => window.clear(screen),
            TerminalOutput::Fullscreen => screen.clear_screen(),
        }
        self.current_line = 0;
    }

    fn scroll_if_needed(&mut self, screen: &mut Screen)
        requires
            old(self).wf_below(SCREEN_HEIGHT + 2),
            old(screen).wf(),
        ensures
            final(self).wf(),
            final(self).target() == old(self).target(),
            final(self).history() == old(self).history(),
            final(screen).wf(),
            (final(screen)@, final(self).line()) == scroll(old(screen)@, old(self).target(), old(self).line()),
    {
        let max_height = match &self.output {
            TerminalOutput::Windowed(window) => window.height - 2,
            TerminalOutput::Fullscreen => SCREEN_HEIGHT,
        };
        if self.current_line >= max_height {
            self.clear(screen);
        }
    }

    fn add_to_history(&mut self, entry: Vec<char>)
        requires
            old(self).wf(),
        ensures
            final(self).wf(),
            final(self).target() == old(self).target(),
            final(self).line() == old(self).line(),
            final(self).history() == push_history(old(self).history(), entry@),
    {
        let ghost h = self.history();
        let ghost e = entry@;
        self.history.insert(0, entry);
        assert(self.history() =~= seq![e] + h);
        if self.history.len() > MAX_HISTORY {
            self.history.truncate(MAX_HISTORY);
            assert(self.history() =~= seq![e] + h.take(MAX_HISTORY - 1));
        }
    }
    /// Runs `command`: `clear` clears the output; the answer and the action
    /// that the session must take follow from the trimmed command and from
    /// whether the terminal is bound to a window.
    pub fn execute_command(&mut self, screen: &mut Screen, command: &str) -> (r: (
        &'static str,
        Action,
    ))
        requires
            old(self).wf(),
            old(screen).wf(),
        ensures
            final(self).wf(),
            final(self).target() == old(self).target(),
            final(self).history() == old(self).history(),
            final(screen).wf(),
            r.0 == response_of(command_of(trim(command@)), old(self).target() is Windowed),
            r.1 == action_of(command_of(trim(command@)), old(self).target() is Windowed),
            command_of(trim(command@)) == Command::Clear ==> final(screen)@ == output_clear(
                old(screen)@,
                old(self).target(),
            ) && final(self).line() == 0,
            command_of(trim(command@)) != Command::Clear ==> final(screen)@ == old(screen)@
                && final(self).line() == old(self).line(),
    {
        let line = chars_of(command);
        let cmd = parse_command(line.as_slice());
        self.run(screen, cmd)
    }

    fn run(&mut self, screen: &mut Screen, cmd: Command) -> (r: (&'static str, Action))
        requires
            old(self).wf_below(SCREEN_HEIGHT + 2),
            old(screen).wf(),
        ensures
            final(self).wf_below(SCREEN_HEIGHT + 2),
            final(self).target() == old(self).target(),
            final(self).history() == old(self).history(),
            final(screen).wf(),
            r.0 == response_of(cmd, old(self).target() is Windowed),
            r.1 == action_of(cmd, old(self).target() is Windowed),
            cmd == Command::Clear ==> final(screen)@ == output_clear(old(screen)@, old(self).target())
                && final(self).line() == 0,
            cmd != Command::Clear ==> final(screen)@ == old(screen)@ && final(self).line()
                == old(self).line(),
    {
        if cmd == Command::Clear {
            self.clear(screen);
        }
        let windowed = match &self.output {
            TerminalOutput::Windowed(_) => true,
            TerminalOutput::Fullscreen => false,
        };
        respond(cmd, windowed)
    }

    /// Feeds one typed character: a newline runs the buffered command, a
    /// backspace erases the last character, anything else is appended and
    /// echoed while the buffer has room. Returns what the session must do.
    pub fn handle_input(
        &mut self,
        screen: &mut Screen,
        c: char,
        buffer: &mut [char; 64],
        buffer_pos: &mut usize,
    ) -> (r: Action)
        requires
            old(self).wf(),
            old(screen).wf(),
            *old(buffer_pos) < BUFFER_SIZE,
        ensures
            final(self).wf(),
            final(screen).wf(),
            input_effect(*old(self), *final(self), old(screen)@, final(screen)@, c, old(buffer)@,
                *old(buffer_pos), final(buffer)@, *final(buffer_pos), r),
    {
        if c == '\n' {
            self.process_command(screen, buffer, buffer_pos)
        } else if c == BACKSPACE {
            self.handle_backspace(screen, buffer, buffer_pos);
            Action::Nothing
        } else {
            self.handle_character(screen, c, buffer, buffer_pos);
            Action::Nothing
        }
    }

    fn handle_character(
        &mut self,
        screen: &mut Screen,
        c: char,
        buffer: &mut [char; 64],
        buffer_pos: &mut usize,
    )
        requires
            old(self).wf(),
            old(screen).wf(),
            *old(buffer_pos) < BUFFER_SIZE,
        ensures
            final(screen).wf(),
            char_effect(*old(self), *final(self), old(screen)@, final(screen)@, c, old(buffer)@,
                *old(buffer_pos), final(buffer)@, *final(buffer_pos)),
    {
        if *buffer_pos < BUFFER_SIZE - 1 {
            buffer[*buffer_pos] = c;
            *buffer_pos = *buffer_pos + 1;
            proof {
                lemma_prompt_width();
            }
            let u = c as u32;
            let echo: Vec<u8> = if u < 128 {
                vec![u as u8]
            } else {
                Vec::new()
            };
            proof {
                assert(echo@ =~= echo_bytes(c));
            }
            self.print_at(screen, 1 + self.prompt.len() + *buffer_pos - 1, self.current_line, echo.as_slice());
        }
    }

    fn handle_backspace(&mut self, screen: &mut Screen, buffer: &mut [char; 64], buffer_pos: &mut usize)
        requires
            old(self).wf(),
            old(screen).wf(),
            *old(buffer_pos) < BUFFER_SIZE,
        ensures
            final(screen).wf(),
            backspace_effect(*old(self), *final(self), old(screen)@, final(screen)@, old(buffer)@,
                *old(buffer_pos), final(buffer)@, *final(buffer_pos)),
    {
        if *buffer_pos > 0 {
            *buffer_pos = *buffer_pos - 1;
            buffer[*buffer_pos] = '\0';
            proof {
                lemma_prompt_width();
            }
            let blank = [SPACE];
            assert(blank@ =~= seq![SPACE]);
            self.print_at(screen, 1 + self.prompt.len() + *buffer_pos, self.current_line, blank.as_slice());
        }
    }

    fn process_command(&mut self, screen: &mut Screen, buffer: &mut [char; 64], buffer_pos: &mut usize) -> (r: Action)
        requires
            old(self).wf(),
            old(screen).wf(),
            *old(buffer_pos) < BUFFER_SIZE,
        ensures
            final(self).wf(),
            final(screen).wf(),
            newline_effect(*old(self), *final(self), old(screen)@, final(screen)@, old(buffer)@,
                *old(buffer_pos), final(buffer)@, *final(buffer_pos), r),
    {
        let n = *buffer_pos;
        let mut line: Vec<char> = Vec::new();
        let mut k: usize = 0;
        while k < n
            invariant
                n == *old(buffer_pos),
                n < BUFFER_SIZE,
                k <= n,
                *buffer == *old(buffer),
                line@ == buffer@.subrange(0, k as int),
            decreases n - k,
        {
            line.push(buffer[k]);
            k = k + 1;
            assert(line@ =~= buffer@.subrange(0, k as int));
        }
        let cmd = parse_typed_line(line.as_slice());
        if n > 0 {
            self.add_to_history(line);
        }
        let mut i: usize = 0;
        while i < BUFFER_SIZE
            invariant
                i <= BUFFER_SIZE,
                forall|j: int| 0 <= j < i ==> buffer@[j] == '\0',
            decreases BUFFER_SIZE - i,
        {
            buffer[i] = '\0';
            i = i + 1;
        }
        assert(buffer@ =~= Seq::new(BUFFER_SIZE as nat, |j: int| '\0'));
        *buffer_pos = 0;
        let ghost g0 = screen@;
        let ghost out = self.target();
        let ghost l0 = self.line() + 1;
        self.current_line = self.current_line + 1;
        let (response, action) = self.run(screen, cmd);
        let response_bytes = response.as_bytes();
        if response_bytes.len() > 0 {
            self.print_at(screen, 1, self.current_line, response_bytes);
            self.current_line = self.current_line + 1;
        }
        self.scroll_if_needed(screen);
        self.print_at(screen, 1, self.current_line, self.prompt.as_bytes());
        assert((screen@, self.line()) == finish_command(g0, out, l0, cmd));
        action
    }
}

} // verus!

verus! {

/// The history after recording each of `cmds` in turn, starting empty.
pub open spec fn history_after(cmds: Seq<Seq<char>>) -> Seq<Seq<char>>
    decreases cmds.len(),
{
    if cmds.len() == 0 {
        Seq::empty()
    } else {
        push_history(history_after(cmds.drop_last()), cmds.last())
    }
}

/// Recording commands one after another keeps exactly the most recent
/// `min(n, 10)` of them, most recent first.
pub proof fn lemma_history_keeps_most_recent(cmds: Seq<Seq<char>>)
    ensures
        history_after(cmds) == Seq::new(
            if cmds.len() < MAX_HISTORY { cmds.len() } else { MAX_HISTORY as nat },
            |i: int| cmds[cmds.len() - 1 - i],
        ),
    decreases cmds.len(),
{
    let n = cmds.len();
    let kept = Seq::new(
        if n < MAX_HISTORY { n } else { MAX_HISTORY as nat },
        |i: int| cmds[n - 1 - i],
    );
    if n > 0 {
        let prev = cmds.drop_last();
        lemma_history_keeps_most_recent(prev);
        assert(history_after(cmds) =~= kept);
    } else {
        assert(history_after(cmds) =~= kept);
    }
}

/// When the answer to a command leaves the output line at or past the
/// output's height, the output is cleared and the prompt returns to line 0.
pub proof fn lemma_scroll_at_height(g: Map<Pos, Cell>, out: TerminalOutput, line: int, cmd: Command)
    requires
        answered(g, out, line, cmd).1 >= max_height(out),
    ensures
        finish_command(g, out, line, cmd) == (
            output_print(
                output_clear(answered(g, out, line, cmd).0, out),
                out,
                1,
                0,
                PROMPT.spec_bytes(),
            ),
            0int,
        ),
{
}

} // verus!

verus! {

/// Binds a new terminal in `window` to the session, replacing any other.
pub fn init_terminal_windowed(session: &mut Session, window: Window)
    requires
        old(session).wf(),
        window.wf(),
    ensures
        final(session).wf(),
        final(session).terminal is Some,
        final(session).terminal->Some_0.target() == TerminalOutput::Windowed(window),
        final(session).terminal->Some_0.history().len() == 0,
        final(session).terminal->Some_0.line() == 0,
        final(session).screen@ == output_print(
            old(session).screen@,
            TerminalOutput::Windowed(window),
            1,
            1,
            PROMPT.spec_bytes(),
        ),
        final(session).windows == old(session).windows,
        final(session).demo == old(session).demo,
        final(session).config == old(session).config,
        final(session).esc_pressed == old(session).esc_pressed,
        final(session).buffer == old(session).buffer,
        final(session).buffer_pos == old(session).buffer_pos,
{
    let terminal = Terminal::new_windowed(window, &mut session.screen);
    session.terminal = Some(terminal);
}

/// Binds a new terminal on the whole grid to the session, replacing any
/// other; the grid is cleared first.
pub fn init_terminal_fullscreen(session: &mut Session)
    requires
        old(session).wf(),
    ensures
        final(session).wf(),
        final(session).terminal is Some,
        final(session).terminal->Some_0.target() == TerminalOutput::Fullscreen,
        final(session).terminal->Some_0.history().len() == 0,
        final(session).terminal->Some_0.line() == 0,
        final(session).screen@ == output_print(
            blank_grid(),
            TerminalOutput::Fullscreen,
            1,
            0,
            PROMPT.spec_bytes(),
        ),
        final(session).windows == old(session).windows,
        final(session).demo == old(session).demo,
        final(session).config == old(session).config,
        final(session).esc_pressed == old(session).esc_pressed,
        final(session).buffer == old(session).buffer,
        final(session).buffer_pos == old(session).buffer_pos,
{
    let terminal = Terminal::new_fullscreen(&mut session.screen);
    session.terminal = Some(terminal);
}

/// The buffer position never passes 63: once 63 characters are buffered,
/// a further ordinary character changes neither the buffer, its position,
/// the terminal nor the grid.
pub proof fn lemma_full_buffer_refuses_input(
    t0: Terminal,
    t1: Terminal,
    g0: Map<Pos, Cell>,
    g1: Map<Pos, Cell>,
    c: char,
    b0: Seq<char>,
    pos0: usize,
    b1: Seq<char>,
    pos1: usize,
    r: Action,
)
    requires
        input_effect(t0, t1, g0, g1, c, b0, pos0, b1, pos1, r),
    ensures
        pos1 <= BUFFER_SIZE - 1,
        pos0 == BUFFER_SIZE - 1 && c != '\n' && c != BACKSPACE ==> b1 == b0 && pos1 == pos0 && t1
            == t0 && g1 == g0,
{
}

/// A run of entered lines on a terminal whose history starts empty: step
/// `k` takes terminal `starts[k]`, which has the history of `ts[k]`, to
/// `ts[k + 1]` on a newline with the non-empty line `typed[k]` buffered up
/// to `pos[k]`.
pub open spec fn entered_lines(
    ts: Seq<Terminal>,
    gs: Seq<Map<Pos, Cell>>,
    hs: Seq<Map<Pos, Cell>>,
    typed: Seq<Seq<char>>,
    pos: Seq<usize>,
    cleared: Seq<Seq<char>>,
    cleared_pos: Seq<usize>,
    rs: Seq<Action>,
    starts: Seq<Terminal>,
) -> bool {
    &&& ts.len() == starts.len() + 1
    &&& gs.len() == starts.len()
    &&& hs.len() == starts.len()
    &&& typed.len() == starts.len()
    &&& pos.len() == starts.len()
    &&& cleared.len() == starts.len()
    &&& cleared_pos.len() == starts.len()
    &&& rs.len() == starts.len()
    &&& ts[0].history().len() == 0
    &&& forall|k: int|
        0 <= k < starts.len() ==> #[trigger] starts[k].history() == ts[k].history()
    &&& forall|k: int|
        0 <= k < starts.len() ==> 0 < pos[k] && #[trigger] input_effect(
            starts[k],
            ts[k + 1],
            gs[k],
            hs[k],
            '\n',
            typed[k],
            pos[k],
            cleared[k],
            cleared_pos[k],
            rs[k],
        )
}

/// The line entered at step `k` of a run.
pub open spec fn run_lines(typed: Seq<Seq<char>>, pos: Seq<usize>) -> Seq<Seq<char>> {
    Seq::new(typed.len(), |k: int| typed[k].subrange(0, pos[k] as int))
}

/// Over a run of `n` entered non-empty lines from an empty history, the
/// history ends up holding exactly the most recent `min(n, 10)` lines, most
/// recent first.
pub proof fn lemma_entered_lines_fill_history(
    ts: Seq<Terminal>,
    gs: Seq<Map<Pos, Cell>>,
    hs: Seq<Map<Pos, Cell>>,
    typed: Seq<Seq<char>>,
    pos: Seq<usize>,
    cleared: Seq<Seq<char>>,
    cleared_pos: Seq<usize>,
    rs: Seq<Action>,
    starts: Seq<Terminal>,
)
    requires
        entered_lines(ts, gs, hs, typed, pos, cleared, cleared_pos, rs, starts),
    ensures
        ({
            let n = starts.len();
            ts[n as int].history() == Seq::new(
                if n < MAX_HISTORY { n } else { MAX_HISTORY as nat },
                |i: int| run_lines(typed, pos)[n - 1 - i],
            )
        }),
{
    let n = starts.len() as int;
    lemma_history_prefix(ts, gs, hs, typed, pos, cleared, cleared_pos, rs, starts, n);
    lemma_history_keeps_most_recent(run_lines(typed, pos));
    assert(run_lines(typed, pos).take(n) =~= run_lines(typed, pos));
}

proof fn lemma_history_prefix(
    ts: Seq<Terminal>,
    gs: Seq<Map<Pos, Cell>>,
    hs: Seq<Map<Pos, Cell>>,
    typed: Seq<Seq<char>>,
    pos: Seq<usize>,
    cleared: Seq<Seq<char>>,
    cleared_pos: Seq<usize>,
    rs: Seq<Action>,
    starts: Seq<Terminal>,
    m: int,
)
    requires
        entered_lines(ts, gs, hs, typed, pos, cleared, cleared_pos, rs, starts),
        0 <= m <= starts.len(),
    ensures
        ts[m].history() == history_after(run_lines(typed, pos).take(m)),
    decreases m,
{
    let lines = run_lines(typed, pos);
    if m == 0 {
        assert(ts[0].history() =~= Seq::<Seq<char>>::empty());
    } else {
        let k = m - 1;
        lemma_history_prefix(ts, gs, hs, typed, pos, cleared, cleared_pos, rs, starts, k);
        assert(starts[k].history() == ts[k].history());
        assert(input_effect(
            starts[k],
            ts[k + 1],
            gs[k],
            hs[k],
            '\n',
            typed[k],
            pos[k],
            cleared[k],
            cleared_pos[k],
            rs[k],
        ));
        assert(lines.take(m).drop_last() =~= lines.take(k));
        assert(lines.take(m).last() == lines[k]);
    }
}

} // verus!
