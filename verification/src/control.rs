//! How keys are turned into operations on the panes.
//!
//! In the normal mode keys move the cursor, change directories and switch
//! panes; in the command mode they write the text of a command. What needs
//! the file system, the terminal or another program is not done here: it is
//! handed back as an [`Action`] for the caller to carry out.

use vstd::prelude::*;
use crate::path::AbsPath;
use crate::state::{Context, Mode, Views, PANES};

verus! {

/// A key as the terminal reports it.
#[derive(Clone, Copy, Debug, PartialEq, Eq, Structural)]
pub enum Key {
    Backspace,
    Left,
    Right,
    Up,
    Down,
    /// A character key; the enter key is the line feed.
    Char(char),
    /// A character key pressed together with the control key.
    Ctrl(char),
    Esc,
    /// Any other key.
    Other,
}

/// What is left for the caller to do once a key has been handled.
#[derive(Debug, PartialEq, Eq)]
pub enum Action {
    /// Nothing but to draw the panes again.
    Redraw,
    /// To end the session.
    Quit,
    /// To read the parent of the active pane's directory and let the pane
    /// leave for it.
    Leave,
    /// To read the child of that name and let the active pane enter it.
    Enter(String),
    /// To read the active pane's directory again and let the pane flip its
    /// filter.
    ToggleHidden,
    /// To edit the file at the path.
    Edit(AbsPath),
    /// To open the file at the path.
    Open(AbsPath),
    /// To read the directory of the pane of that number and make the pane
    /// the active one.
    Switch(usize),
    /// To carry out the command.
    Execute(String),
}

/// What an [`Action`] stands for.
pub enum ActionView {
    Redraw,
    Quit,
    Leave,
    Enter(Seq<char>),
    ToggleHidden,
    Edit(Seq<Seq<char>>),
    Open(Seq<Seq<char>>),
    Switch(usize),
    Execute(Seq<char>),
}

impl View for Action {
    type V = ActionView;

    open spec fn view(&self) -> ActionView {
        match *self {
            Action::Redraw => ActionView::Redraw,
            Action::Quit => ActionView::Quit,
            Action::Leave => ActionView::Leave,
            Action::Enter(name) => ActionView::Enter(name@),
            Action::ToggleHidden => ActionView::ToggleHidden,
            Action::Edit(path) => ActionView::Edit(path@),
            Action::Open(path) => ActionView::Open(path@),
            Action::Switch(index) => ActionView::Switch(index),
            Action::Execute(command) => ActionView::Execute(command@),
        }
    }
}

/// `String::push`: the character is appended to the text.
pub assume_specification[ String::push ](text: &mut String, ch: char)
    ensures
        final(text)@ == old(text)@.push(ch),
;

/// `String::pop`: the last character is taken from the text and returned;
/// an empty text stays empty and nothing is returned.
pub assume_specification[ String::pop ](text: &mut String) -> (last: Option<char>)
    ensures
        old(text)@.len() == 0 ==> last.is_none() && final(text)@ == old(text)@,
        old(text)@.len() > 0 ==> last == Some(old(text)@.last()) && final(text)@ == old(
            text,
        )@.drop_last(),
;

/// The keys that end the session.
pub open spec fn quits(key: Key) -> bool {
    key == Key::Char('q') || key == Key::Ctrl('c') || key == Key::Ctrl('z')
}

/// The number of the pane that a digit key stands for.
pub open spec fn pane_of(key: Key) -> Option<usize> {
    if key == Key::Char('1') {
        Some(0usize)
    } else if key == Key::Char('2') {
        Some(1usize)
    } else if key == Key::Char('3') {
        Some(2usize)
    } else if key == Key::Char('4') {
        Some(3usize)
    } else {
        None
    }
}

/// The rows by which the cursor moves for a key, upwards if negative.
pub open spec fn movement(key: Key) -> Option<int> {
    if key == Key::Up || key == Key::Char('k') {
        Some(-1)
    } else if key == Key::Down || key == Key::Char('j') {
        Some(1)
    } else if key == Key::Ctrl('u') {
        Some(-10)
    } else if key == Key::Ctrl('d') {
        Some(10)
    } else {
        None
    }
}

impl Context {
    /// Whether `after` is this pane with the cursor moved by `rows`, upwards
    /// if negative.
    pub open spec fn moved_by(&self, after: Context, rows: int) -> bool {
        let len = self.directory@.len() as int;
        &&& after == (Context { cursor: after.cursor, scroll: after.scroll, ..*self })
        &&& after.place() == if rows < 0 {
            self.place().up(-rows, self.rows(), len)
        } else {
            self.place().down(rows, self.rows(), len)
        }
    }

    /// Whether `after` is this pane with the mark of the selected entry
    /// flipped and the cursor moved down by a row; a pane that selects
    /// nothing stays as it is.
    pub open spec fn marked_selected(&self, after: Context) -> bool {
        if self.has_target() {
            let len = self.directory@.len() as int;
            &&& after == (Context {
                cursor: after.cursor,
                scroll: after.scroll,
                buffers: after.buffers,
                ..*self
            })
            &&& after.place() == self.place().down(1, self.rows(), len)
            &&& after.memory() == self.memory().insert(
                self.current_dir@,
                self.marked_anew(self.selected()@.path),
            )
        } else {
            after == *self
        }
    }
}

impl Views {
    /// What is left to do once a key has been handled in the normal mode.
    pub open spec fn normal_action(&self, key: Key) -> ActionView {
        if quits(key) {
            ActionView::Quit
        } else if key == Key::Left || key == Key::Char('h') {
            ActionView::Leave
        } else if key == Key::Right || key == Key::Char('l') {
            if self.has_active() && self.active().targets_dir() {
                ActionView::Enter(self.active().selected()@.name)
            } else {
                ActionView::Redraw
            }
        } else if key == Key::Char('.') {
            ActionView::ToggleHidden
        } else if key == Key::Char('e') {
            if self.has_active() && self.active().has_target() {
                ActionView::Edit(self.active().selected()@.path)
            } else {
                ActionView::Redraw
            }
        } else if key == Key::Char('o') {
            if self.has_active() && self.active().has_target() {
                ActionView::Open(self.active().selected()@.path)
            } else {
                ActionView::Redraw
            }
        } else if pane_of(key).is_some() {
            ActionView::Switch(pane_of(key).unwrap())
        } else {
            ActionView::Redraw
        }
    }

    /// Whether `after` is what a key makes of these panes in the normal mode.
    pub open spec fn normal_effect(&self, after: Views, key: Key) -> bool {
        if movement(key).is_some() {
            if self.has_active() {
                &&& self.but_pane(after, self.index as int)
                &&& self.active().moved_by(after.active(), movement(key).unwrap())
            } else {
                after == *self
            }
        } else if key == Key::Char(' ') {
            if self.has_active() {
                &&& self.but_pane(after, self.index as int)
                &&& self.active().marked_selected(after.active())
            } else {
                after == *self
            }
        } else if key == Key::Char('>') {
            after == (Views { index: ((self.index + 1) % (PANES as int)) as usize, ..*self })
        } else if key == Key::Char('<') {
            after == (Views {
                index: if self.index > 0 {
                    (self.index - 1) as usize
                } else {
                    (PANES - 1) as usize
                },
                ..*self
            })
        } else if key == Key::Char(':') {
            after == (Views { mode: Mode::Command, ..*self })
        } else {
            after == *self
        }
    }

    /// What is left to do once a key has been handled in the command mode.
    pub open spec fn command_action(&self, key: Key) -> ActionView {
        if key == Key::Char('\n') {
            ActionView::Execute(self.command@)
        } else {
            ActionView::Redraw
        }
    }

    /// The text of the command once a key has been handled in the command
    /// mode.
    pub open spec fn command_text(&self, key: Key) -> Seq<char> {
        match key {
            Key::Char(ch) => if ch == '\n' {
                Seq::empty()
            } else {
                self.command@.push(ch)
            },
            Key::Esc => Seq::empty(),
            Key::Ctrl(ch) => if ch == 'u' {
                Seq::empty()
            } else {
                self.command@
            },
            Key::Backspace => if self.command@.len() > 0 {
                self.command@.drop_last()
            } else {
                self.command@
            },
            _ => self.command@,
        }
    }

    /// Whether `after` is what a key makes of these panes in the command
    /// mode: enter and escape lead back to the normal mode, and the text of
    /// the command changes.
    pub open spec fn command_effect(&self, after: Views, key: Key) -> bool {
        &&& after.mode == if key == Key::Char('\n') || key == Key::Esc {
            Mode::Normal
        } else {
            Mode::Command
        }
        &&& after.command@ == self.command_text(key)
        &&& after.index == self.index
        &&& after.contexts == self.contexts
    }

    /// What is left to do once a key has been handled.
    pub open spec fn action_for(&self, key: Key) -> ActionView {
        match self.mode {
            Mode::Normal => self.normal_action(key),
            Mode::Command => self.command_action(key),
        }
    }

    /// Whether `after` is what a key makes of these panes.
    pub open spec fn effect_of(&self, after: Views, key: Key) -> bool {
        match self.mode {
            Mode::Normal => self.normal_effect(after, key),
            Mode::Command => self.command_effect(after, key),
        }
    }

    /// Handles a key: in the mode in which keys are read, the key changes
    /// the panes as far as that needs nothing from outside, and the result
    /// says what is left to do.
    pub fn handle_key(&mut self, key: Key) -> (action: Action)
        ensures
            action@ == old(self).action_for(key),
            old(self).effect_of(*final(self), key),
    {
        match self.mode {
            Mode::Normal => self.handle_normal(key),
            Mode::Command => self.handle_command(key),
        }
    }

    fn handle_command(&mut self, key: Key) -> (action: Action)
        requires
            old(self).mode == Mode::Command,
        ensures
            action@ == old(self).command_action(key),
            old(self).command_effect(*final(self), key),
    {
        let action = match key {
            Key::Char(ch) => {
                if ch == '\n' {
                    let mut command = String::new();
                    core::mem::swap(&mut self.command, &mut command);
                    self.exit_command();
                    Action::Execute(command)
                } else {
                    self.command.push(ch);
                    Action::Redraw
                }
            },
            Key::Esc => {
                self.exit_command();
                Action::Redraw
            },
            Key::Ctrl(ch) => {
                if ch == 'u' {
                    self.command = String::new();
                }
                Action::Redraw
            },
            Key::Backspace => {
                self.command.pop();
                Action::Redraw
            },
            _ => Action::Redraw,
        };
        assert(self.command@ =~= old(self).command_text(key));
        action
    }

    fn handle_normal(&mut self, key: Key) -> (action: Action)
        ensures
            action@ == old(self).normal_action(key),
            old(self).normal_effect(*final(self), key),
    {
        match key {
            Key::Up => self.move_active(true, 1),
            Key::Down => self.move_active(false, 1),
            Key::Left => Action::Leave,
            Key::Right => self.enter_action(),
            Key::Ctrl(ch) => {
                if ch == 'c' || ch == 'z' {
                    Action::Quit
                } else if ch == 'd' {
                    self.move_active(false, 10)
                } else if ch == 'u' {
                    self.move_active(true, 10)
                } else {
                    Action::Redraw
                }
            },
            Key::Char(ch) => {
                if ch == 'q' {
                    Action::Quit
                } else if ch == 'k' {
                    self.move_active(true, 1)
                } else if ch == 'j' {
                    self.move_active(false, 1)
                } else if ch == 'h' {
                    Action::Leave
                } else if ch == 'l' {
                    self.enter_action()
                } else if ch == '.' {
                    Action::ToggleHidden
                } else if ch == 'e' {
                    match self.target_path() {
                        Some(path) => Action::Edit(path),
                        None => Action::Redraw,
                    }
                } else if ch == 'o' {
                    match self.target_path() {
                        Some(path) => Action::Open(path),
                        None => Action::Redraw,
                    }
                } else if ch == '1' {
                    Action::Switch(0)
                } else if ch == '2' {
                    Action::Switch(1)
                } else if ch == '3' {
                    Action::Switch(2)
                } else if ch == '4' {
                    Action::Switch(3)
                } else if ch == '>' {
                    self.next();
                    Action::Redraw
                } else if ch == '<' {
                    self.previous();
                    Action::Redraw
                } else if ch == ':' {
                    self.mode = Mode::Command;
                    Action::Redraw
                } else if ch == ' ' {
                    match self.current_context() {
                        Some(pane) => {
                            pane.mark_selected();
                        },
                        None => {},
                    }
                    Action::Redraw
                } else {
                    Action::Redraw
                }
            },
            _ => Action::Redraw,
        }
    }

    /// Moves the cursor of the active pane.
    fn move_active(&mut self, up: bool, amount: usize) -> (action: Action)
        requires
            0 < amount <= 10,
        ensures
            action@ == ActionView::Redraw,
            old(self).has_active() ==> old(self).but_pane(*final(self), old(self).index as int)
                && old(self).active().moved_by(
                final(self).active(),
                if up {
                    -(amount as int)
                } else {
                    amount as int
                },
            ),
            !old(self).has_active() ==> *final(self) == *old(self),
    {
        match self.current_context() {
            Some(pane) => {
                if up {
                    pane.cursor_up(amount);
                } else {
                    pane.cursor_down(amount);
                }
            },
            None => {},
        }
        Action::Redraw
    }

    /// The action of entering the selected directory of the active pane.
    fn enter_action(&self) -> (action: Action)
        ensures
            action@ == if self.has_active() && self.active().targets_dir() {
                ActionView::Enter(self.active().selected()@.name)
            } else {
                ActionView::Redraw
            },
    {
        if self.index < PANES {
            match self.contexts[self.index].target_dir() {
                Ok(name) => Action::Enter(name),
                Err(_) => Action::Redraw,
            }
        } else {
            Action::Redraw
        }
    }

    /// The path of the entry that the active pane selects.
    pub fn target_path(&self) -> (path: Option<AbsPath>)
        ensures
            match path {
                Some(path) => self.has_active() && self.active().has_target() && path@
                    == self.active().selected()@.path,
                None => !(self.has_active() && self.active().has_target()),
            },
    {
        if self.index < PANES {
            match self.contexts[self.index].target() {
                Some(entry) => Some(entry.path.clone()),
                None => None,
            }
        } else {
            None
        }
    }
}

/// The text of a command exists only while one is written: if there is no
/// text in the normal mode before a key is handled, there is none in the
/// normal mode after it.
pub proof fn lemma_text_only_in_command_mode(before: Views, after: Views, key: Key)
    requires
        before.effect_of(after, key),
        before.mode == Mode::Normal ==> before.command@.len() == 0,
    ensures
        after.mode == Mode::Normal ==> after.command@.len() == 0,
{
}

/// The modes change in two ways only: the colon leads from the normal mode
/// to the command mode, and enter and escape lead back.
pub proof fn lemma_mode_changes(before: Views, after: Views, key: Key)
    requires
        before.effect_of(after, key),
    ensures
        after.mode != before.mode <==> (before.mode == Mode::Normal && key == Key::Char(':')) || (
        before.mode == Mode::Command && (key == Key::Char('\n') || key == Key::Esc)),
{
}

impl Context {
    /// Flips the mark of the selected entry and moves the cursor down by a
    /// row. A pane that selects nothing stays as it is.
    pub fn mark_selected(&mut self)
        ensures
            old(self).marked_selected(*final(self)),
    {
        let path = match self.target() {
            Some(entry) => entry.path.clone(),
            None => {
                return ;
            },
        };
        self.toggle_mark(path);
        self.cursor_down(1);
    }
}

} // verus!
