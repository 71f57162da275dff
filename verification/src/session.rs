//! Session state: the file list with its cursor, the interaction mode, the
//! two text buffers and the termination flag, together with every mutation
//! the dispatcher may perform on them.

use vstd::prelude::*;

verus! {

/// One changed file as reported by the version-control collaborator.
#[derive(Debug)]
pub struct FileEntry {
    pub name: String,
    pub selected: bool,
}

/// Ghost mirror of a `FileEntry`: the name as a character sequence.
pub ghost struct FileView {
    pub name: Seq<char>,
    pub selected: bool,
}

impl View for FileEntry {
    type V = FileView;

    open spec fn view(&self) -> FileView {
        FileView { name: self.name@, selected: self.selected }
    }
}

/// The interaction mode: it decides which keys are legal and which buffer,
/// if any, receives character input.
#[derive(Debug, Clone, Copy, PartialEq, Eq)]
pub enum Mode {
    Normal,
    EditingCommitMessage,
    EditingPRTitle,
}

/// The authoritative session state, owned exclusively by the event loop.
pub struct Session {
    /// Changed files, in the order the version-control collaborator
    /// reported them; never resized after construction.
    pub files: Vec<FileEntry>,
    /// Index of the entry under the cursor; `None` only for an empty list.
    pub cursor: Option<usize>,
    pub mode: Mode,
    pub commit_message: Vec<char>,
    pub pr_title: Vec<char>,
    /// Set by the quit key; the event loop checks it once per iteration.
    pub terminated: bool,
}

/// Ghost mirror of a `Session`.
#[verifier::ext_equal]
pub ghost struct SessionView {
    pub files: Seq<FileView>,
    pub cursor: Option<int>,
    pub mode: Mode,
    pub commit_message: Seq<char>,
    pub pr_title: Seq<char>,
    pub terminated: bool,
}

impl View for Session {
    type V = SessionView;

    open spec fn view(&self) -> SessionView {
        SessionView {
            files: self.files@.map_values(|f: FileEntry| f@),
            cursor: match self.cursor {
                Some(i) => Some(i as int),
                None => None,
            },
            mode: self.mode,
            commit_message: self.commit_message@,
            pr_title: self.pr_title@,
            terminated: self.terminated,
        }
    }
}

/// The index one step forward, wrapping past the end to 0.
pub open spec fn next_index(i: int, len: int) -> int {
    if i + 1 == len {
        0
    } else {
        i + 1
    }
}

/// The index one step back, wrapping below 0 to the last index.
pub open spec fn prev_index(i: int, len: int) -> int {
    if i == 0 {
        len - 1
    } else {
        i - 1
    }
}

impl SessionView {
    /// Structural invariant: the cursor is in bounds, and it is `None` only
    /// while the file list is empty.
    pub open spec fn wf(self) -> bool {
        match self.cursor {
            Some(i) => 0 <= i < self.files.len(),
            None => self.files.len() == 0,
        }
    }

    /// State after `advance_selection`.
    pub open spec fn advanced(self) -> SessionView {
        if self.files.len() == 0 {
            self
        } else {
            let j = match self.cursor {
                Some(i) => next_index(i, self.files.len() as int),
                None => 0,
            };
            SessionView { cursor: Some(j), ..self }
        }
    }

    /// State after `retreat_selection`.
    pub open spec fn retreated(self) -> SessionView {
        if self.files.len() == 0 {
            self
        } else {
            let j = match self.cursor {
                Some(i) => prev_index(i, self.files.len() as int),
                None => 0,
            };
            SessionView { cursor: Some(j), ..self }
        }
    }

    /// State after `toggle_current`.
    pub open spec fn toggled(self) -> SessionView {
        match self.cursor {
            Some(i) => {
                let f = self.files[i];
                SessionView {
                    files: self.files.update(i, FileView { selected: !f.selected, ..f }),
                    ..self
                }
            },
            None => self,
        }
    }

    /// State after `append_char(mode, c)`.
    pub open spec fn appended(self, mode: Mode, c: char) -> SessionView {
        match mode {
            Mode::Normal => self,
            Mode::EditingCommitMessage => SessionView {
                commit_message: self.commit_message.push(c),
                ..self
            },
            Mode::EditingPRTitle => SessionView { pr_title: self.pr_title.push(c), ..self },
        }
    }

    /// State after `delete_last_char(mode)`.
    pub open spec fn deleted(self, mode: Mode) -> SessionView {
        match mode {
            Mode::Normal => self,
            Mode::EditingCommitMessage => SessionView {
                commit_message: if self.commit_message.len() == 0 {
                    self.commit_message
                } else {
                    self.commit_message.drop_last()
                },
                ..self
            },
            Mode::EditingPRTitle => SessionView {
                pr_title: if self.pr_title.len() == 0 {
                    self.pr_title
                } else {
                    self.pr_title.drop_last()
                },
                ..self
            },
        }
    }

    /// State after `enter_mode(m)` (and, with `Mode::Normal`, after
    /// `return_to_normal`).
    pub open spec fn entered(self, m: Mode) -> SessionView {
        SessionView { mode: m, ..self }
    }

    /// State after the quit key: only the termination flag is raised.
    pub open spec fn quit(self) -> SessionView {
        SessionView { terminated: true, ..self }
    }
}

impl Session {
    /// Seeds a session from the collaborator's file list: cursor on the
    /// first entry, Normal mode, both buffers empty.
    pub fn new(files: Vec<FileEntry>) -> (s: Session)
        ensures
            s@.wf(),
            s@.files == files@.map_values(|f: FileEntry| f@),
            s@.cursor == (if files@.len() == 0 {
                None::<int>
            } else {
                Some(0int)
            }),
            s@.mode == Mode::Normal,
            s@.commit_message == Seq::<char>::empty(),
            s@.pr_title == Seq::<char>::empty(),
            !s@.terminated,
    {
        let cursor: Option<usize> = if files.len() == 0 {
            None
        } else {
            Some(0)
        };
        Session {
            files,
            cursor,
            mode: Mode::Normal,
            commit_message: Vec::new(),
            pr_title: Vec::new(),
            terminated: false,
        }
    }

    /// Moves the cursor forward one entry, wrapping around; no-op on an
    /// empty list.
    pub fn advance_selection(&mut self)
        requires
            old(self)@.wf(),
        ensures
            final(self)@.wf(),
            final(self)@ == old(self)@.advanced(),
    {
        let len = self.files.len();
        if len == 0 {
            return ;
        }
        let j: usize = match self.cursor {
            Some(i) => {
                if i + 1 == len {
                    0
                } else {
                    i + 1
                }
            },
            None => 0,
        };
        self.cursor = Some(j);
    }

    /// Moves the cursor back one entry, wrapping around; no-op on an empty
    /// list.
    pub fn retreat_selection(&mut self)
        requires
            old(self)@.wf(),
        ensures
            final(self)@.wf(),
            final(self)@ == old(self)@.retreated(),
    {
        let len = self.files.len();
        if len == 0 {
            return ;
        }
        let j: usize = match self.cursor {
            Some(i) => {
                if i == 0 {
                    len - 1
                } else {
                    i - 1
                }
            },
            None => 0,
        };
        self.cursor = Some(j);
    }

    /// Flips `selected` on the entry under the cursor; no-op when the
    /// cursor is `None`.
    pub fn toggle_current(&mut self)
        requires
            old(self)@.wf(),
        ensures
            final(self)@.wf(),
            final(self)@ == old(self)@.toggled(),
    {
        match self.cursor {
            Some(i) => {
                let flipped = !self.files[i].selected;
                self.files[i].selected = flipped;
                proof {
                    assert(self@.files =~= old(self)@.toggled().files);
                }
            },
            None => {},
        }
    }

    /// Appends `c` to the buffer that `mode` edits; no-op in Normal mode.
    pub fn append_char(&mut self, mode: Mode, c: char)
        requires
            old(self)@.wf(),
        ensures
            final(self)@.wf(),
            final(self)@ == old(self)@.appended(mode, c),
    {
        match mode {
            Mode::Normal => {},
            Mode::EditingCommitMessage => self.commit_message.push(c),
            Mode::EditingPRTitle => self.pr_title.push(c),
        }
    }

    /// Removes the last character of the buffer that `mode` edits, if any;
    /// no-op in Normal mode.
    pub fn delete_last_char(&mut self, mode: Mode)
        requires
            old(self)@.wf(),
        ensures
            final(self)@.wf(),
            final(self)@ == old(self)@.deleted(mode),
    {
        match mode {
            Mode::Normal => {},
            Mode::EditingCommitMessage => {
                let _ = self.commit_message.pop();
            },
            Mode::EditingPRTitle => {
                let _ = self.pr_title.pop();
            },
        }
    }

    /// Pure mode transition; touches neither the file list nor the cursor.
    pub fn enter_mode(&mut self, m: Mode)
        requires
            old(self)@.wf(),
        ensures
            final(self)@.wf(),
            final(self)@ == old(self)@.entered(m),
    {
        self.mode = m;
    }

    /// Cancels an edit: pure transition back to Normal mode.
    pub fn return_to_normal(&mut self)
        requires
            old(self)@.wf(),
        ensures
            final(self)@.wf(),
            final(self)@ == old(self)@.entered(Mode::Normal),
    {
        self.mode = Mode::Normal;
    }

    /// Raises the termination flag; the event loop checks it once per
    /// iteration.
    pub fn request_quit(&mut self)
        requires
            old(self)@.wf(),
        ensures
            final(self)@.wf(),
            final(self)@ == old(self)@.quit(),
    {
        self.terminated = true;
    }
}

/// A fresh copy of a character buffer, for handing buffer contents out
/// without giving up the session's own.
pub fn copy_chars(v: &Vec<char>) -> (r: Vec<char>)
    ensures
        r@ == v@,
{
    let mut r: Vec<char> = Vec::new();
    let mut i: usize = 0;
    while i < v.len()
        invariant
            i <= v@.len(),
            r@ == v@.take(i as int),
        decreases v@.len() - i,
    {
        r.push(v[i]);
        proof {
            assert(v@.take(i as int + 1) =~= v@.take(i as int).push(v@[i as int]));
        }
        i = i + 1;
    }
    proof {
        assert(v@.take(v@.len() as int) =~= v@);
    }
    r
}

} // verus!
