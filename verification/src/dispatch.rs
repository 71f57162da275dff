//! Input dispatcher: classifies one decoded terminal key against the
//! current mode and applies exactly one row of the transition table.

use vstd::prelude::*;

use crate::session::{Mode, Session, SessionView};

verus! {

/// One decoded terminal key. The event loop translates the driver's raw
/// events into this vocabulary before dispatching; any key with no defined
/// behavior arrives as `Other`.
#[derive(Debug, Clone, Copy, PartialEq, Eq)]
pub enum Key {
    Char(char),
    Enter,
    Esc,
    Backspace,
    /// The global interrupt combination, honored in every mode.
    Interrupt,
    Other,
}

/// What the event loop must do after a key was dispatched.
#[derive(Debug, Clone, Copy, PartialEq, Eq)]
pub enum Signal {
    /// Keep looping (the quit key raises the session's termination flag,
    /// which the loop checks separately).
    Proceed,
    /// Invoke the action trigger with the session as it stands.
    Confirm,
    /// Leave immediately, bypassing all other handling.
    Interrupt,
}

/// The transition table's effect on the session state. Keys without a row
/// for the current mode leave the state untouched, and so do confirmation
/// and the global interrupt.
pub open spec fn step_state(s: SessionView, k: Key) -> SessionView {
    if k == Key::Interrupt {
        s
    } else {
        match s.mode {
            Mode::Normal => match k {
                Key::Char(c) => if c == 'q' {
                    s.quit()
                } else if c == 'j' {
                    s.advanced()
                } else if c == 'k' {
                    s.retreated()
                } else if c == ' ' {
                    s.toggled()
                } else if c == 'c' {
                    s.entered(Mode::EditingCommitMessage)
                } else if c == 'p' {
                    s.entered(Mode::EditingPRTitle)
                } else {
                    s
                },
                _ => s,
            },
            Mode::EditingCommitMessage => match k {
                Key::Esc => s.entered(Mode::Normal),
                Key::Char(c) => s.appended(Mode::EditingCommitMessage, c),
                Key::Backspace => s.deleted(Mode::EditingCommitMessage),
                _ => s,
            },
            Mode::EditingPRTitle => match k {
                Key::Esc => s.entered(Mode::Normal),
                Key::Char(c) => s.appended(Mode::EditingPRTitle, c),
                Key::Backspace => s.deleted(Mode::EditingPRTitle),
                _ => s,
            },
        }
    }
}

/// The transition table's demand on the event loop: interrupt wins in every
/// mode, and confirmation is reachable only from Normal mode.
pub open spec fn step_signal(s: SessionView, k: Key) -> Signal {
    if k == Key::Interrupt {
        Signal::Interrupt
    } else if s.mode == Mode::Normal && k == Key::Enter {
        Signal::Confirm
    } else {
        Signal::Proceed
    }
}

/// Whether the transition table has a row for `k` in mode `m`. Every other
/// key is inert: it changes no state and asks nothing of the loop.
pub open spec fn key_listed(m: Mode, k: Key) -> bool {
    k == Key::Interrupt || match m {
        Mode::Normal => match k {
            Key::Char(c) => c == 'q' || c == 'j' || c == 'k' || c == ' ' || c == 'c' || c == 'p',
            Key::Enter => true,
            _ => false,
        },
        Mode::EditingCommitMessage | Mode::EditingPRTitle => match k {
            Key::Esc | Key::Char(_) | Key::Backspace => true,
            _ => false,
        },
    }
}

impl Session {
    /// Routes one key through the transition table: mutates the session as
    /// `step_state` says and returns what `step_signal` says the loop must
    /// do next.
    pub fn handle_key(&mut self, k: Key) -> (sig: Signal)
        requires
            old(self)@.wf(),
        ensures
            final(self)@.wf(),
            final(self)@ == step_state(old(self)@, k),
            sig == step_signal(old(self)@, k),
    {
        match k {
            Key::Interrupt => Signal::Interrupt,
            _ => match self.mode {
                Mode::Normal => match k {
                    Key::Char(c) => {
                        if c == 'q' {
                            self.request_quit();
                        } else if c == 'j' {
                            self.advance_selection();
                        } else if c == 'k' {
                            self.retreat_selection();
                        } else if c == ' ' {
                            self.toggle_current();
                        } else if c == 'c' {
                            self.enter_mode(Mode::EditingCommitMessage);
                        } else if c == 'p' {
                            self.enter_mode(Mode::EditingPRTitle);
                        }
                        Signal::Proceed
                    },
                    Key::Enter => Signal::Confirm,
                    _ => Signal::Proceed,
                },
                Mode::EditingCommitMessage => match k {
                    Key::Esc => {
                        self.return_to_normal();
                        Signal::Proceed
                    },
                    Key::Char(c) => {
                        self.append_char(Mode::EditingCommitMessage, c);
                        Signal::Proceed
                    },
                    Key::Backspace => {
                        self.delete_last_char(Mode::EditingCommitMessage);
                        Signal::Proceed
                    },
                    _ => Signal::Proceed,
                },
                Mode::EditingPRTitle => match k {
                    Key::Esc => {
                        self.return_to_normal();
                        Signal::Proceed
                    },
                    Key::Char(c) => {
                        self.append_char(Mode::EditingPRTitle, c);
                        Signal::Proceed
                    },
                    Key::Backspace => {
                        self.delete_last_char(Mode::EditingPRTitle);
                        Signal::Proceed
                    },
                    _ => Signal::Proceed,
                },
            },
        }
    }
}

} // verus!
