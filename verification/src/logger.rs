//! The logger: it reads the names of the simulator's variables from its
//! plugin file, watches their values, and keeps a line for every change.

use vstd::prelude::*;
use vstd::string::{StrSliceExecFns, StringExecFns};
use crate::text::{
    append_decimal, decimal_text, parse_unsigned, read_unsigned, same_text, trim, trimmed,
};

verus! {

/// How many variables are watched.
pub const VARIABLE_SLOTS: usize = 100;

/// How many lines are kept for the window.
pub const MESSAGE_LIMIT: usize = 100;

/// The key that shows and hides the window unless the plugin file names
/// another: F11.
pub const DEFAULT_HOTKEY: u32 = 0x7A;

/// What the plugin file says.
#[derive(Debug)]
pub struct PluginFile {
    /// The names of the variables, in the order of their numbers.
    pub var_names: Vec<String>,
    /// The key that shows and hides the window.
    pub hotkey: u32,
}

/// How far the plugin file has been read.
pub struct OplState {
    pub names: Seq<Seq<char>>,
    pub hotkey: u32,
    /// Whether the lines belong to the list of variables.
    pub in_varlist: bool,
    /// Whether the lines belong to the hotkey.
    pub in_hotkey: bool,
    /// How many names the list announced, 0 if it has not yet.
    pub expected: nat,
}

/// Before the first line.
pub open spec fn opl_start() -> OplState {
    OplState {
        names: Seq::empty(),
        hotkey: DEFAULT_HOTKEY,
        in_varlist: false,
        in_hotkey: false,
        expected: 0,
    }
}

/// The hotkey that a line names: a number to the base 16 behind `0x`, or a
/// decimal number.
pub open spec fn hotkey_of(line: Seq<char>) -> Option<nat> {
    if line.len() >= 2 && line[0] == '0' && line[1] == 'x' {
        parse_unsigned(line.skip(2), 16, u32::MAX as nat)
    } else {
        parse_unsigned(line, 10, u32::MAX as nat)
    }
}

/// What one line of the plugin file does. The white space around a line
/// does not count. `[varlist]` opens the list of variables: its first line
/// that is a number other than 0 says how many names follow, and every line
/// after that is a name until there are as many names as that. `[hotkey]`
/// opens the hotkey: every line there that is a number sets it.
pub open spec fn opl_step(state: OplState, raw: Seq<char>) -> OplState {
    let line = trim(raw);
    if line == "[varlist]"@ {
        OplState { in_varlist: true, in_hotkey: false, ..state }
    } else if line == "[hotkey]"@ {
        OplState { in_varlist: false, in_hotkey: true, ..state }
    } else if state.in_varlist {
        if state.expected == 0 {
            match parse_unsigned(line, 10, usize::MAX as nat) {
                Some(count) => OplState { expected: count, ..state },
                None => state,
            }
        } else {
            let names = state.names.push(line);
            OplState { names, in_varlist: names.len() < state.expected, ..state }
        }
    } else if state.in_hotkey {
        match hotkey_of(line) {
            Some(key) => OplState { hotkey: key as u32, ..state },
            None => state,
        }
    } else {
        state
    }
}

/// What the first `n` lines of the plugin file do.
pub open spec fn opl_run(lines: Seq<Seq<char>>, n: nat) -> OplState
    decreases n,
{
    if n == 0 {
        opl_start()
    } else {
        opl_step(opl_run(lines, (n - 1) as nat), lines[n - 1])
    }
}

fn read_hotkey(line: &str) -> (key: Option<u32>)
    ensures
        key matches Some(k) ==> hotkey_of(line@) == Some(k as nat),
        key is None ==> hotkey_of(line@) is None,
{
    let n: usize = line.unicode_len();
    let number = if n >= 2 && line.get_char(0) == '0' && line.get_char(1) == 'x' {
        let rest = line.substring_char(2, n);
        read_unsigned(rest, 16, u32::MAX as u64)
    } else {
        read_unsigned(line, 10, u32::MAX as u64)
    };
    match number {
        Some(k) => Some(k as u32),
        None => None,
    }
}

/// Reads the plugin file, line by line.
pub fn parse_opl(lines: &Vec<String>) -> (file: PluginFile)
    ensures
        file.var_names.deep_view() == opl_run(lines.deep_view(), lines@.len()).names,
        file.hotkey == opl_run(lines.deep_view(), lines@.len()).hotkey,
{
    let mut var_names: Vec<String> = Vec::new();
    let mut hotkey_val: u32 = DEFAULT_HOTKEY;
    let mut in_varlist = false;
    let mut in_hotkey = false;
    let mut expected_count: usize = 0;
    let mut i: usize = 0;
    assert(var_names.deep_view() == Seq::<Seq<char>>::empty());
    while i < lines.len()
        invariant
            i <= lines@.len(),
            opl_run(lines.deep_view(), i as nat) == (OplState {
                names: var_names.deep_view(),
                hotkey: hotkey_val,
                in_varlist,
                in_hotkey,
                expected: expected_count as nat,
            }),
        decreases lines@.len() - i,
    {
        let ghost before = var_names.deep_view();
        let l = trimmed(lines[i].as_str());
        if same_text(l, "[varlist]") {
            in_varlist = true;
            in_hotkey = false;
        } else if same_text(l, "[hotkey]") {
            in_hotkey = true;
            in_varlist = false;
        } else if in_varlist {
            if expected_count == 0 {
                if let Some(c) = read_unsigned(l, 10, usize::MAX as u64) {
                    expected_count = c as usize;
                }
            } else {
                var_names.push(String::from_str(l));
                assert(var_names.deep_view() == before.push(l@));
                if var_names.len() >= expected_count {
                    in_varlist = false;
                }
            }
        } else if in_hotkey {
            if let Some(h) = read_hotkey(l) {
                hotkey_val = h;
            }
        }
        i += 1;
    }
    PluginFile { var_names, hotkey: hotkey_val }
}

/// Whether the state that the system reports of a key says that the key is
/// down: its highest bit is set.
pub fn key_is_down(state: i16) -> (down: bool)
    ensures
        down == (state < 0),
{
    state < 0
}

/// Whether the window is shown, and whether the hotkey was down when it was
/// last looked at.
#[derive(Clone, Copy, Debug, PartialEq, Eq, Structural)]
pub struct HotkeyToggle {
    pub pressed: bool,
    pub visible: bool,
}

impl HotkeyToggle {
    /// Takes note of the hotkey. The window changes between shown and
    /// hidden when the key goes down, not while it stays down.
    pub fn update(&mut self, down: bool)
        ensures
            final(self).pressed == down,
            final(self).visible == (if down && !old(self).pressed {
                !old(self).visible
            } else {
                old(self).visible
            }),
    {
        if down {
            if !self.pressed {
                self.visible = !self.visible;
                self.pressed = true;
            }
        } else {
            self.pressed = false;
        }
    }
}

/// What is to be done with the window.
#[derive(Clone, Copy, Debug, PartialEq, Eq, Structural)]
pub enum WindowAction {
    /// Show the window and bring it to the front.
    Show,
    /// Hide the window.
    Hide,
    /// Leave the window as it is.
    Keep,
}

/// What is to be done with the window so that it is shown exactly when it
/// is wanted.
pub fn window_action(wanted: bool, shown: bool) -> (action: WindowAction)
    ensures
        action == (if wanted && !shown {
            WindowAction::Show
        } else if !wanted && shown {
            WindowAction::Hide
        } else {
            WindowAction::Keep
        }),
{
    if wanted && !shown {
        WindowAction::Show
    } else if !wanted && shown {
        WindowAction::Hide
    } else {
        WindowAction::Keep
    }
}

/// A variable that changed its value.
#[derive(Clone, Copy, Debug, PartialEq, Eq, Structural)]
pub struct Change {
    pub index: usize,
    pub before: u32,
    pub after: u32,
}

/// The changes among the first `n` variables, in the order of their
/// numbers.
pub open spec fn changes_upto(before: Seq<u32>, after: Seq<u32>, n: nat) -> Seq<Change>
    decreases n,
{
    if n == 0 {
        Seq::empty()
    } else {
        let i = (n - 1) as int;
        let rest = changes_upto(before, after, i as nat);
        if before[i] != after[i] {
            rest.push(Change { index: i as usize, before: before[i], after: after[i] })
        } else {
            rest
        }
    }
}

/// Finds the variables whose values differ from those seen last, and takes
/// the new values as seen.
pub fn detect_changes(last: &mut [u32; VARIABLE_SLOTS], current: &[u32; VARIABLE_SLOTS]) -> (changes: Vec<Change>)
    ensures
        changes@ == changes_upto(old(last)@, current@, VARIABLE_SLOTS as nat),
        final(last)@ == current@,
{
    let mut changes: Vec<Change> = Vec::new();
    let mut i: usize = 0;
    while i < VARIABLE_SLOTS
        invariant
            i <= VARIABLE_SLOTS,
            changes@ == changes_upto(old(last)@, current@, i as nat),
            forall|j: int| 0 <= j < i ==> last@[j] == current@[j],
            forall|j: int| i <= j < VARIABLE_SLOTS ==> last@[j] == old(last)@[j],
        decreases VARIABLE_SLOTS - i,
    {
        let current_val: u32 = current[i];
        if current_val != last[i] {
            changes.push(Change { index: i, before: last[i], after: current_val });
            last[i] = current_val;
        }
        i += 1;
    }
    changes
}

/// The name of variable `index`: the one that the plugin file gives it, or
/// `Unknown_` and its number.
pub open spec fn name_of(names: Seq<Seq<char>>, index: nat) -> Seq<char> {
    if index < names.len() {
        names[index as int]
    } else {
        "Unknown_"@ + decimal_text(index)
    }
}

/// The name of variable `index`.
pub fn variable_name(names: &Vec<String>, index: usize) -> (name: String)
    ensures
        name@ == name_of(names.deep_view(), index as nat),
{
    if index < names.len() {
        names[index].clone()
    } else {
        let mut name = String::from_str("Unknown_");
        append_decimal(&mut name, index as u64);
        name
    }
}

/// The line that records a change: when it happened, the name of the
/// variable, the old value and the new one.
pub open spec fn log_line_of(stamp: Seq<char>, name: Seq<char>, before: u32, after: u32) -> Seq<
    char,
> {
    stamp + ": "@ + name + ", old: "@ + decimal_text(before as nat) + ", new: "@ + decimal_text(
        after as nat,
    ) + "\n"@
}

/// Writes the line that records a change.
pub fn log_line(stamp: &str, name: &str, before: u32, after: u32) -> (line: String)
    ensures
        line@ == log_line_of(stamp@, name@, before, after),
{
    let mut line = String::from_str(stamp);
    line.append(": ");
    line.append(name);
    line.append(", old: ");
    append_decimal(&mut line, before as u64);
    line.append(", new: ");
    append_decimal(&mut line, after as u64);
    line.append("\n");
    line
}

/// The lines that the window shows: the latest ones, oldest first.
pub struct MessageLog {
    messages: Vec<String>,
}

impl View for MessageLog {
    type V = Seq<Seq<char>>;

    /// The lines, oldest first.
    closed spec fn view(&self) -> Seq<Seq<char>> {
        self.messages.deep_view()
    }
}

/// The lines after a new one came: the new line goes behind the others,
/// and where that makes more than the limit, the oldest line goes.
pub open spec fn with_message(lines: Seq<Seq<char>>, line: Seq<char>) -> Seq<Seq<char>> {
    if lines.len() + 1 > MESSAGE_LIMIT {
        lines.push(line).skip(1)
    } else {
        lines.push(line)
    }
}

impl MessageLog {
    /// No lines yet.
    pub fn new() -> (log: MessageLog)
        ensures
            log@ == Seq::<Seq<char>>::empty(),
    {
        let log = MessageLog { messages: Vec::new() };
        log
    }

    /// Keeps a new line.
    pub fn push(&mut self, line: String)
        ensures
            final(self)@ == with_message(old(self)@, line@),
    {
        self.messages.push(line);
        if self.messages.len() > MESSAGE_LIMIT {
            let _ = self.messages.remove(0);
        }
    }

    /// How many lines there are.
    pub fn len(&self) -> (n: usize)
        ensures
            n == self@.len(),
    {
        self.messages.len()
    }

    /// Line `i`, counted from the oldest, if there is one.
    pub fn line(&self, i: usize) -> (line: Option<&String>)
        ensures
            i < self@.len() ==> line is Some && line->0@ == self@[i as int],
            i >= self@.len() ==> line is None,
    {
        if i < self.messages.len() {
            Some(&self.messages[i])
        } else {
            None
        }
    }
}

} // verus!
