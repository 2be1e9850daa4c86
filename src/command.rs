//! The command interpreter: trimming, recognizing and answering a command line.
use vstd::prelude::*;

verus! {

/// The commands that the terminal recognizes.
#[derive(Clone, Copy, Debug, PartialEq, Eq, Structural)]
pub enum Command {
    Help,
    Clear,
    Info,
    Mode,
    ThreeD,
    Windowed,
    Fullscreen,
    Empty,
    Unknown,
}

/// What the session must do once a command has been answered.
#[derive(Clone, Copy, Debug, PartialEq, Eq, Structural)]
pub enum Action {
    Nothing,
    Launch3d,
    SwitchToWindowed,
    SwitchToFullscreen,
}

pub const HELP_TEXT: &'static str = "Available commands: help, clear, info, mode, 3d, windowed, fullscreen";

pub const INFO_TEXT: &'static str = "OS Version 0.1.0";

pub const MODE_WINDOWED_TEXT: &'static str = "UI Mode: Windowed";

pub const MODE_FULLSCREEN_TEXT: &'static str = "UI Mode: Fullscreen Terminal";

pub const LAUNCHED_3D_TEXT: &'static str = "Launched 3D demo window";

pub const NO_3D_TEXT: &'static str = "3D demo only available in windowed mode";

pub const ALREADY_WINDOWED_TEXT: &'static str = "Already in windowed mode";

pub const ALREADY_FULLSCREEN_TEXT: &'static str = "Already in fullscreen mode";

pub const UNKNOWN_TEXT: &'static str = "Unknown command. Type 'help' for available commands.";

pub const EMPTY_TEXT: &'static str = "";

/// Unicode `White_Space`, the characters that trimming removes.
pub open spec fn is_white_space(c: char) -> bool {
    let u = c as u32;
    ||| 9 <= u <= 13
    ||| u == 32
    ||| u == 0x85
    ||| u == 0xA0
    ||| u == 0x1680
    ||| 0x2000 <= u <= 0x200A
    ||| u == 0x2028
    ||| u == 0x2029
    ||| u == 0x202F
    ||| u == 0x205F
    ||| u == 0x3000
}

/// `s` without its leading white space.
pub open spec fn trim_start(s: Seq<char>) -> Seq<char>
    decreases s.len(),
{
    if s.len() > 0 && is_white_space(s[0]) {
        trim_start(s.drop_first())
    } else {
        s
    }
}

/// `s` without its trailing white space.
pub open spec fn trim_end(s: Seq<char>) -> Seq<char>
    decreases s.len(),
{
    if s.len() > 0 && is_white_space(s.last()) {
        trim_end(s.drop_last())
    } else {
        s
    }
}

/// `s` without leading and trailing white space.
pub open spec fn trim(s: Seq<char>) -> Seq<char> {
    trim_end(trim_start(s))
}

/// The command that a trimmed line names; matching is case-sensitive.
pub open spec fn command_of(t: Seq<char>) -> Command {
    if t == seq!['h', 'e', 'l', 'p'] {
        Command::Help
    } else if t == seq!['c', 'l', 'e', 'a', 'r'] {
        Command::Clear
    } else if t == seq!['i', 'n', 'f', 'o'] {
        Command::Info
    } else if t == seq!['m', 'o', 'd', 'e'] {
        Command::Mode
    } else if t == seq!['3', 'd'] {
        Command::ThreeD
    } else if t == seq!['w', 'i', 'n', 'd', 'o', 'w', 'e', 'd'] {
        Command::Windowed
    } else if t == seq!['f', 'u', 'l', 'l', 's', 'c', 'r', 'e', 'e', 'n'] {
        Command::Fullscreen
    } else if t.len() == 0 {
        Command::Empty
    } else {
        Command::Unknown
    }
}

/// The text that answers `cmd` on a terminal bound to a window (`windowed`)
/// or to the whole grid; a mode switch rebuilds the session and answers
/// nothing.
pub open spec fn response_of(cmd: Command, windowed: bool) -> &'static str {
    match cmd {
        Command::Help => HELP_TEXT,
        Command::Clear => EMPTY_TEXT,
        Command::Info => INFO_TEXT,
        Command::Mode => if windowed {
            MODE_WINDOWED_TEXT
        } else {
            MODE_FULLSCREEN_TEXT
        },
        Command::ThreeD => if windowed {
            LAUNCHED_3D_TEXT
        } else {
            NO_3D_TEXT
        },
        Command::Windowed => if windowed {
            ALREADY_WINDOWED_TEXT
        } else {
            EMPTY_TEXT
        },
        Command::Fullscreen => if windowed {
            EMPTY_TEXT
        } else {
            ALREADY_FULLSCREEN_TEXT
        },
        Command::Empty => EMPTY_TEXT,
        Command::Unknown => UNKNOWN_TEXT,
    }
}

/// The action that follows `cmd`.
pub open spec fn action_of(cmd: Command, windowed: bool) -> Action {
    match cmd {
        Command::ThreeD => if windowed {
            Action::Launch3d
        } else {
            Action::Nothing
        },
        Command::Windowed => if windowed {
            Action::Nothing
        } else {
            Action::SwitchToWindowed
        },
        Command::Fullscreen => if windowed {
            Action::SwitchToFullscreen
        } else {
            Action::Nothing
        },
        _ => Action::Nothing,
    }
}

/// Whether `c` is Unicode white space.
pub fn is_white_space_char(c: char) -> (r: bool)
    ensures
        r == is_white_space(c),
{
    let u = c as u32;
    (9 <= u && u <= 13) || u == 32 || u == 0x85 || u == 0xA0 || u == 0x1680 || (0x2000 <= u && u
        <= 0x200A) || u == 0x2028 || u == 0x2029 || u == 0x202F || u == 0x205F || u == 0x3000
}

/// The bounds `(i, j)` of `s` without its leading and trailing white space.
pub fn trim_bounds(s: &[char]) -> (r: (usize, usize))
    ensures
        r.0 <= r.1 <= s@.len(),
        s@.subrange(r.0 as int, r.1 as int) == trim(s@),
{
    let n = s.len();
    let mut i: usize = 0;
    assert(s@.subrange(0, n as int) =~= s@);
    while i < n && is_white_space_char(s[i])
        invariant
            n == s@.len(),
            i <= n,
            trim_start(s@) == trim_start(s@.subrange(i as int, n as int)),
        decreases n - i,
    {
        assert(s@.subrange(i as int, n as int).drop_first() =~= s@.subrange(i + 1, n as int));
        i = i + 1;
    }
    assert(trim_start(s@) == s@.subrange(i as int, n as int));
    let mut j: usize = n;
    while j > i && is_white_space_char(s[j - 1])
        invariant
            n == s@.len(),
            i <= j <= n,
            trim(s@) == trim_end(s@.subrange(i as int, j as int)),
        decreases j,
    {
        assert(s@.subrange(i as int, j as int).drop_last() =~= s@.subrange(i as int, j - 1));
        j = j - 1;
    }
    (i, j)
}

/// Whether `s[i..j]` spells `w`.
fn spells(s: &[char], i: usize, j: usize, w: &[char]) -> (r: bool)
    requires
        i <= j <= s@.len(),
    ensures
        r == (s@.subrange(i as int, j as int) == w@),
{
    if j - i != w.len() {
        return false;
    }
    let mut k: usize = 0;
    while k < w.len()
        invariant
            i <= j <= s@.len(),
            j - i == w@.len(),
            k <= w@.len(),
            forall|m: int| 0 <= m < k ==> s@[i + m] == w@[m],
        decreases w@.len() - k,
    {
        if s[i + k] != w[k] {
            assert(s@.subrange(i as int, j as int)[k as int] != w@[k as int]);
            return false;
        }
        k = k + 1;
    }
    assert(s@.subrange(i as int, j as int) =~= w@);
    true
}

/// The command that `line` names once trimmed.
pub fn parse_command(line: &[char]) -> (r: Command)
    ensures
        r == command_of(trim(line@)),
{
    let (i, j) = trim_bounds(line);
    let help = ['h', 'e', 'l', 'p'];
    let clear = ['c', 'l', 'e', 'a', 'r'];
    let info = ['i', 'n', 'f', 'o'];
    let mode = ['m', 'o', 'd', 'e'];
    let three_d = ['3', 'd'];
    let windowed = ['w', 'i', 'n', 'd', 'o', 'w', 'e', 'd'];
    let fullscreen = ['f', 'u', 'l', 'l', 's', 'c', 'r', 'e', 'e', 'n'];
    assert(help@ =~= seq!['h', 'e', 'l', 'p']);
    assert(clear@ =~= seq!['c', 'l', 'e', 'a', 'r']);
    assert(info@ =~= seq!['i', 'n', 'f', 'o']);
    assert(mode@ =~= seq!['m', 'o', 'd', 'e']);
    assert(three_d@ =~= seq!['3', 'd']);
    assert(windowed@ =~= seq!['w', 'i', 'n', 'd', 'o', 'w', 'e', 'd']);
    assert(fullscreen@ =~= seq!['f', 'u', 'l', 'l', 's', 'c', 'r', 'e', 'e', 'n']);
    if spells(line, i, j, help.as_slice()) {
        Command::Help
    } else if spells(line, i, j, clear.as_slice()) {
        Command::Clear
    } else if spells(line, i, j, info.as_slice()) {
        Command::Info
    } else if spells(line, i, j, mode.as_slice()) {
        Command::Mode
    } else if spells(line, i, j, three_d.as_slice()) {
        Command::ThreeD
    } else if spells(line, i, j, windowed.as_slice()) {
        Command::Windowed
    } else if spells(line, i, j, fullscreen.as_slice()) {
        Command::Fullscreen
    } else if i == j {
        Command::Empty
    } else {
        Command::Unknown
    }
}

/// The answer to `cmd` on a terminal bound to a window (`windowed`) or to
/// the whole grid, with the action that follows.
pub fn respond(cmd: Command, windowed: bool) -> (r: (&'static str, Action))
    ensures
        r.0 == response_of(cmd, windowed),
        r.1 == action_of(cmd, windowed),
{
    match cmd {
        Command::Help => (HELP_TEXT, Action::Nothing),
        Command::Clear => (EMPTY_TEXT, Action::Nothing),
        Command::Info => (INFO_TEXT, Action::Nothing),
        Command::Mode => if windowed {
            (MODE_WINDOWED_TEXT, Action::Nothing)
        } else {
            (MODE_FULLSCREEN_TEXT, Action::Nothing)
        },
        Command::ThreeD => if windowed {
            (LAUNCHED_3D_TEXT, Action::Launch3d)
        } else {
            (NO_3D_TEXT, Action::Nothing)
        },
        Command::Windowed => if windowed {
            (ALREADY_WINDOWED_TEXT, Action::Nothing)
        } else {
            (EMPTY_TEXT, Action::SwitchToWindowed)
        },
        Command::Fullscreen => if windowed {
            (EMPTY_TEXT, Action::SwitchToFullscreen)
        } else {
            (ALREADY_FULLSCREEN_TEXT, Action::Nothing)
        },
        Command::Empty => (EMPTY_TEXT, Action::Nothing),
        Command::Unknown => (UNKNOWN_TEXT, Action::Nothing),
    }
}

} // verus!

verus! {

/// The characters of `s`.
pub fn chars_of(s: &str) -> (r: Vec<char>)
    ensures
        r@ == s@,
{
    broadcast use vstd::string::axiom_spec_iter;
    let mut v: Vec<char> = Vec::new();
    for c in it: s.chars()
        invariant
            it.seq() == s@,
            v@ == it.seq().take(it.index() as int),
    {
        v.push(c);
    }
    assert(v@ =~= s@);
    v
}

/// The command of a line typed at the terminal. The line reaches the
/// interpreter as one byte per character, so a line holding a character
/// beyond ASCII does not decode and counts as the empty command.
pub open spec fn line_command(line: Seq<char>) -> Command {
    if exists|i: int| 0 <= i < line.len() && (#[trigger] line[i] as u32) > 0x7F {
        Command::Empty
    } else {
        command_of(trim(line))
    }
}

/// The command of a typed line, as `line_command` describes.
pub fn parse_typed_line(line: &[char]) -> (r: Command)
    ensures
        r == line_command(line@),
{
    let mut i: usize = 0;
    while i < line.len()
        invariant
            i <= line@.len(),
            forall|j: int| 0 <= j < i ==> (#[trigger] line@[j] as u32) <= 0x7F,
        decreases line@.len() - i,
    {
        if line[i] as u32 > 0x7F {
            return Command::Empty;
        }
        i = i + 1;
    }
    parse_command(line)
}

} // verus!
