//! Renderer: a pure mapping from the session to the three visual regions —
//! the file list with selection markers, and the two single-line text
//! fields with their mode-dependent emphasis. Nothing here touches a
//! terminal; the event loop paints this model through the driver.

use vstd::prelude::*;
use vstd::string::StringExecFns;

use crate::session::{copy_chars, FileView, Mode, Session};

verus! {

/// One frame's content, as plain data: a row per file entry, the row under
/// the cursor, and each text field with its emphasis flag.
pub struct FrameModel {
    /// One row per entry: selection marker, then the name.
    pub file_rows: Vec<String>,
    /// The row the cursor highlights, if any.
    pub highlighted: Option<usize>,
    pub commit_text: Vec<char>,
    /// Whether the commit-message field is the one accepting input.
    pub commit_active: bool,
    pub title_text: Vec<char>,
    /// Whether the pull-request-title field is the one accepting input.
    pub title_active: bool,
}

/// The visible row for one entry: a marker that shows `selected`, then the
/// name.
pub open spec fn row_of(f: FileView) -> Seq<char> {
    (if f.selected {
        "[x] "@
    } else {
        "[ ] "@
    }) + f.name
}

/// Maps the session to one frame. Pure: the result is a function of the
/// session alone, so rendering twice on identical state shows the same
/// frame, and the session is never mutated.
pub fn render_frame(s: &Session) -> (r: FrameModel)
    ensures
        r.file_rows@.len() == s@.files.len(),
        forall|j: int| 0 <= j < s@.files.len() ==> r.file_rows@[j]@ == row_of(s@.files[j]),
        r.highlighted == s.cursor,
        r.commit_text@ == s@.commit_message,
        r.commit_active == (s@.mode == Mode::EditingCommitMessage),
        r.title_text@ == s@.pr_title,
        r.title_active == (s@.mode == Mode::EditingPRTitle),
{
    let mut rows: Vec<String> = Vec::new();
    let mut i: usize = 0;
    while i < s.files.len()
        invariant
            i <= s.files@.len(),
            rows@.len() == i,
            forall|j: int| 0 <= j < i ==> rows@[j]@ == row_of(s@.files[j]),
        decreases s.files@.len() - i,
    {
        let marker: &str = if s.files[i].selected {
            "[x] "
        } else {
            "[ ] "
        };
        let row = String::from_str(marker).concat(s.files[i].name.as_str());
        rows.push(row);
        i = i + 1;
    }
    FrameModel {
        file_rows: rows,
        highlighted: s.cursor,
        commit_text: copy_chars(&s.commit_message),
        commit_active: match s.mode {
            Mode::EditingCommitMessage => true,
            _ => false,
        },
        title_text: copy_chars(&s.pr_title),
        title_active: match s.mode {
            Mode::EditingPRTitle => true,
            _ => false,
        },
    }
}

} // verus!
