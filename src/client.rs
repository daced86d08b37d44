//! The decisions of the interactive client: how a key press changes the
//! input state and what it asks to send, how the history is labelled, and
//! when a refused request is signed again.
use crate::tick::{Tick, TickType};
use vstd::prelude::*;
use vstd::string::StringExecFns;

verus! {

/// The pane that receives key presses.
#[derive(Clone, Copy, Debug, PartialEq, Eq, Structural)]
pub enum SelectedWindow {
    Text,
    Tick,
    TickHistory,
}

/// A key press, as far as the client tells keys apart.
#[derive(Clone, Copy, Debug, PartialEq, Eq, Structural)]
pub enum Key {
    Enter,
    Char(char),
    Backspace,
    Tab,
    Up,
    Down,
    Other,
}

/// What a key press asks of the network side.
#[derive(Debug, PartialEq, Eq)]
pub enum Command {
    /// Nothing to send.
    Nothing,
    /// Sign and send this status message, then reload.
    SendMessage(String),
    /// Sign and send a tick of this type, then reload.
    SendTick(u8),
    /// Leave the client.
    Quit,
}

/// The pane after `w` in the tab order.
pub open spec fn next_window(w: SelectedWindow) -> SelectedWindow {
    match w {
        SelectedWindow::Text => SelectedWindow::Tick,
        SelectedWindow::Tick => SelectedWindow::TickHistory,
        SelectedWindow::TickHistory => SelectedWindow::Text,
    }
}

/// Relies on `String::push`: appends the character.
#[verifier::external_body]
fn push_char(s: &mut String, c: char)
    ensures
        final(s)@ == old(s)@.push(c),
{
    s.push(c)
}

/// Relies on `String::pop`: removes and returns the last character, if any.
#[verifier::external_body]
fn pop_char(s: &mut String) -> (r: Option<char>)
    ensures
        old(s)@.len() == 0 ==> r is None && final(s)@ == old(s)@,
        old(s)@.len() > 0 ==> r == Some(old(s)@.last()) && final(s)@ == old(s)@.drop_last(),
{
    s.pop()
}

/// Relies on `String::clear`: removes every character.
#[verifier::external_body]
fn clear_string(s: &mut String)
    ensures
        final(s)@ == Seq::<char>::empty(),
{
    s.clear()
}

/// The client's input state: the focused pane, the message being typed,
/// the highlighted tick type and the history scroll position.
pub struct InputState {
    pub selected: SelectedWindow,
    pub local_message: String,
    pub selected_action: usize,
    pub scroll_offset: usize,
}

impl InputState {
    /// Focus on the message pane, nothing typed, nothing scrolled.
    pub fn new() -> (r: Self)
        ensures
            r.selected == SelectedWindow::Text,
            r.local_message@ == Seq::<char>::empty(),
            r.selected_action == 0,
            r.scroll_offset == 0,
    {
        InputState {
            selected: SelectedWindow::Text,
            local_message: String::new(),
            selected_action: 0,
            scroll_offset: 0,
        }
    }

    /// Moves the focus to the next pane.
    pub fn next_mode(&mut self)
        ensures
            final(self).selected == next_window(old(self).selected),
            final(self).local_message@ == old(self).local_message@,
            final(self).selected_action == old(self).selected_action,
            final(self).scroll_offset == old(self).scroll_offset,
    {
        self.selected =
        match self.selected {
            SelectedWindow::Text => SelectedWindow::Tick,
            SelectedWindow::Tick => SelectedWindow::TickHistory,
            SelectedWindow::TickHistory => SelectedWindow::Text,
        };
    }

    /// What a reload resets: the typed message and the scroll position.
    pub fn reload(&mut self)
        ensures
            final(self).selected == old(self).selected,
            final(self).local_message@ == Seq::<char>::empty(),
            final(self).selected_action == old(self).selected_action,
            final(self).scroll_offset == 0,
    {
        clear_string(&mut self.local_message);
        self.scroll_offset = 0;
    }

    /// Applies a key press, given how many tick types and history lines
    /// are shown, and says what to send. Tab moves the focus; `q` quits
    /// outside the message pane; in the message pane characters are typed
    /// and Enter sends the message; in the tick pane Up and Down move the
    /// highlight within the list and Enter sends a tick of the type with id
    /// one above its index; in the history pane Up and Down scroll within
    /// the list.
    pub fn handle_input(&mut self, key: Key, tick_count: usize, history_len: usize) -> (r:
        Command)
        ensures
            key == Key::Tab ==> r == Command::Nothing && final(self).selected == next_window(
                old(self).selected,
            ),
            key != Key::Tab ==> final(self).selected == old(self).selected,
            key == Key::Char('q') && old(self).selected != SelectedWindow::Text ==> r
                == Command::Quit,
            old(self).selected == SelectedWindow::Text ==> final(self).selected_action == old(
                self,
            ).selected_action && final(self).scroll_offset == old(self).scroll_offset,
            old(self).selected == SelectedWindow::Text ==> match key {
                Key::Char(c) => r == Command::Nothing && final(self).local_message@ == old(
                    self,
                ).local_message@.push(c),
                Key::Backspace => r == Command::Nothing && final(self).local_message@ == if old(
                    self,
                ).local_message@.len() == 0 {
                    old(self).local_message@
                } else {
                    old(self).local_message@.drop_last()
                },
                Key::Enter => (r matches Command::SendMessage(m) && m@ == old(
                    self,
                ).local_message@) && final(self).local_message@ == old(self).local_message@,
                _ => r == Command::Nothing && final(self).local_message@ == old(
                    self,
                ).local_message@,
            },
            old(self).selected != SelectedWindow::Text ==> final(self).local_message@ == old(
                self,
            ).local_message@,
            old(self).selected == SelectedWindow::Tick ==> final(self).scroll_offset == old(
                self,
            ).scroll_offset && match key {
                Key::Up => r == Command::Nothing && final(self).selected_action == if old(
                    self,
                ).selected_action == 0 {
                    0
                } else {
                    (old(self).selected_action - 1) as usize
                },
                Key::Down => r == Command::Nothing && final(self).selected_action == if old(
                    self,
                ).selected_action + 1 < tick_count {
                    (old(self).selected_action + 1) as usize
                } else {
                    old(self).selected_action
                },
                Key::Enter => final(self).selected_action == old(self).selected_action && r == if old(
                    self,
                ).selected_action < 255 {
                    Command::SendTick((old(self).selected_action + 1) as u8)
                } else {
                    Command::Nothing
                },
                Key::Char(c) => final(self).selected_action == old(self).selected_action && r == if c
                    == 'q' {
                    Command::Quit
                } else {
                    Command::Nothing
                },
                _ => r == Command::Nothing && final(self).selected_action == old(
                    self,
                ).selected_action,
            },
            old(self).selected == SelectedWindow::TickHistory ==> final(self).selected_action
                == old(self).selected_action && match key {
                Key::Up => r == Command::Nothing && final(self).scroll_offset == if old(
                    self,
                ).scroll_offset == 0 {
                    0
                } else {
                    (old(self).scroll_offset - 1) as usize
                },
                Key::Down => r == Command::Nothing && final(self).scroll_offset == if old(
                    self,
                ).scroll_offset + 1 < history_len {
                    (old(self).scroll_offset + 1) as usize
                } else {
                    old(self).scroll_offset
                },
                Key::Char(c) => final(self).scroll_offset == old(self).scroll_offset && r == if c
                    == 'q' {
                    Command::Quit
                } else {
                    Command::Nothing
                },
                _ => r == Command::Nothing && final(self).scroll_offset == old(self).scroll_offset,
            },
    {
        if key == Key::Tab {
            self.next_mode();
            return Command::Nothing;
        }
        if key == Key::Char('q') && self.selected != SelectedWindow::Text {
            return Command::Quit;
        }
        match self.selected {
            SelectedWindow::Text => match key {
                Key::Enter => Command::SendMessage(self.local_message.clone()),
                Key::Char(c) => {
                    push_char(&mut self.local_message, c);
                    Command::Nothing
                },
                Key::Backspace => {
                    pop_char(&mut self.local_message);
                    Command::Nothing
                },
                _ => Command::Nothing,
            },
            SelectedWindow::Tick => match key {
                Key::Up => {
                    self.selected_action = self.selected_action.saturating_sub(1);
                    Command::Nothing
                },
                Key::Down => {
                    if self.selected_action < tick_count && self.selected_action + 1 < tick_count {
                        self.selected_action = self.selected_action + 1;
                    }
                    Command::Nothing
                },
                Key::Enter => {
                    if self.selected_action < 255 {
                        Command::SendTick(self.selected_action as u8 + 1)
                    } else {
                        Command::Nothing
                    }
                },
                _ => Command::Nothing,
            },
            SelectedWindow::TickHistory => match key {
                Key::Up => {
                    if self.scroll_offset > 0 {
                        self.scroll_offset = self.scroll_offset - 1;
                    }
                    Command::Nothing
                },
                Key::Down => {
                    if self.scroll_offset < history_len && self.scroll_offset + 1 < history_len {
                        self.scroll_offset = self.scroll_offset + 1;
                    }
                    Command::Nothing
                },
                _ => Command::Nothing,
            },
        }
    }
}

/// The label of the first catalog entry with this id.
pub open spec fn label_of(catalog: Seq<TickType>, id: u8) -> Option<Seq<char>>
    decreases catalog.len(),
{
    if catalog.len() == 0 {
        None
    } else if catalog[0].id == id {
        Some(catalog[0].tick@)
    } else {
        label_of(catalog.drop_first(), id)
    }
}

/// One line of the history pane: the tick's label, a dash, and its time.
pub open spec fn history_line(label: Seq<char>, time: Seq<char>) -> Seq<char> {
    label + " - "@ + time
}

/// The line of the history pane for a label and a time.
fn join_history_line(label: &str, time: &str) -> (r: String)
    ensures
        r@ == history_line(label@, time@),
{
    let mut line = String::from_str(label);
    line.append(" - ");
    line.append(time);
    line
}

/// The index of the first catalog entry with this id.
fn find_label(catalog: &Vec<TickType>, id: u8) -> (r: Option<usize>)
    ensures
        match r {
            Some(j) => j < catalog@.len() && label_of(catalog@, id) == Some(catalog@[j as int].tick@),
            None => label_of(catalog@, id) is None,
        },
{
    let mut j: usize = 0;
    assert(catalog@.subrange(0, catalog@.len() as int) =~= catalog@);
    while j < catalog.len()
        invariant
            j <= catalog@.len(),
            label_of(catalog@, id) == label_of(catalog@.subrange(j as int, catalog@.len() as int), id),
        decreases catalog@.len() - j,
    {
        let ghost rest = catalog@.subrange(j as int, catalog@.len() as int);
        assert(rest.drop_first() =~= catalog@.subrange(j + 1, catalog@.len() as int));
        assert(rest[0] == catalog@[j as int]);
        if catalog[j].id == id {
            return Some(j);
        }
        j = j + 1;
    }
    None
}

/// The lines of the history pane, newest first; `None` where a tick's type
/// is missing from the catalog.
pub fn tick_to_string(ticks: &Vec<TickType>, tick_history: Vec<Tick>) -> (r: Option<Vec<String>>)
    ensures
        r is Some <==> forall|i: int|
            0 <= i < tick_history@.len() ==> (#[trigger] label_of(ticks@, tick_history@[i].tick))
                is Some,
        r matches Some(lines) ==> lines@.len() == tick_history@.len() && forall|i: int|
            0 <= i < lines@.len() ==> (#[trigger] lines@[i])@ == history_line(
                label_of(ticks@, tick_history@[tick_history@.len() - 1 - i].tick)->0,
                tick_history@[tick_history@.len() - 1 - i].time@,
            ),
{
    let n = tick_history.len();
    let mut lines: Vec<String> = Vec::new();
    let mut k: usize = 0;
    while k < n
        invariant
            n == tick_history@.len(),
            k <= n,
            lines@.len() == k,
            forall|i: int| n - k <= i < n ==> (#[trigger] label_of(ticks@, tick_history@[i].tick)) is Some,
            forall|i: int|
                0 <= i < k ==> (#[trigger] lines@[i])@ == history_line(
                    label_of(ticks@, tick_history@[n - 1 - i].tick)->0,
                    tick_history@[n - 1 - i].time@,
                ),
        decreases n - k,
    {
        let t = &tick_history[n - 1 - k];
        match find_label(ticks, t.tick) {
            Some(j) => {
                lines.push(join_history_line(ticks[j].tick.as_str(), t.time.as_str()));
            },
            None => {
                assert(label_of(ticks@, tick_history@[n - 1 - k].tick) is None);
                return None;
            },
        }
        k = k + 1;
    }
    Some(lines)
}

/// What the client does once the server has answered a signed request.
#[derive(Clone, Copy, Debug, PartialEq, Eq, Structural)]
pub enum PostStep {
    /// The request was accepted, or refused for a reason that signing
    /// again cannot mend.
    Done,
    /// Another mutation moved the sequence first: fetch it, sign again, resend.
    Retry,
    /// Refused on every allowed attempt.
    GiveUp,
}

/// The status with which the server refuses a signature.
pub const UNAUTHORIZED: u16 = 401;

/// Decides the next step after attempt `attempt` (from 0) of at most
/// `max_attempts` was answered with `status`.
pub fn after_response(status: u16, attempt: u32, max_attempts: u32) -> (r: PostStep)
    ensures
        status != UNAUTHORIZED ==> r == PostStep::Done,
        status == UNAUTHORIZED && attempt + 1 < max_attempts ==> r == PostStep::Retry,
        status == UNAUTHORIZED && attempt + 1 >= max_attempts ==> r == PostStep::GiveUp,
{
    if status != UNAUTHORIZED {
        PostStep::Done
    } else if attempt < max_attempts && attempt + 1 < max_attempts {
        PostStep::Retry
    } else {
        PostStep::GiveUp
    }
}

} // verus!
