//! Laws of the interactive core, each proved once and for all over the
//! session model: wraparound closure of the cursor, inverses, the
//! involution of toggling, buffer edits undoing each other, and what the
//! transition table guarantees globally.

use vstd::prelude::*;

use crate::dispatch::{key_listed, step_state, step_signal, Key, Signal};
use crate::session::{next_index, prev_index, Mode, SessionView};

verus! {

/// The session after `n` consecutive `advance_selection` calls.
pub open spec fn advanced_times(s: SessionView, n: nat) -> SessionView
    decreases n,
{
    if n == 0 {
        s
    } else {
        advanced_times(s, (n - 1) as nat).advanced()
    }
}

/// After `k <= len` advances from cursor `i`, the cursor sits at `i + k`,
/// wrapped once past the end; nothing else moves.
proof fn lemma_advanced_times_cursor(s: SessionView, i: int, k: nat)
    requires
        s.wf(),
        s.files.len() > 0,
        s.cursor == Some(i),
        k <= s.files.len(),
    ensures
        advanced_times(s, k) == (SessionView {
            cursor: Some(
                if i + k < s.files.len() {
                    i + k
                } else {
                    i + k - s.files.len()
                },
            ),
            ..s
        }),
    decreases k,
{
    if k == 0 {
        assert(SessionView { cursor: Some(i), ..s } == s);
    } else {
        lemma_advanced_times_cursor(s, i, (k - 1) as nat);
        assert(advanced_times(s, k) == advanced_times(s, (k - 1) as nat).advanced());
    }
}

/// Wraparound closure: on a non-empty list, exactly `len` advances return
/// the cursor — and with it the whole session — to where it started.
pub proof fn lemma_advance_wraparound(s: SessionView)
    requires
        s.wf(),
        s.files.len() > 0,
    ensures
        advanced_times(s, s.files.len()) == s,
{
    let i = match s.cursor {
        Some(i) => i,
        None => 0,
    };
    lemma_advanced_times_cursor(s, i, s.files.len());
    assert(SessionView { cursor: Some(i), ..s } == s);
}

/// Retreating is the exact inverse of advancing, at every cursor position
/// of a non-empty list, and in both orders.
pub proof fn lemma_advance_retreat_inverse(s: SessionView)
    requires
        s.wf(),
        s.files.len() > 0,
    ensures
        s.advanced().retreated() == s,
        s.retreated().advanced() == s,
{
    let len = s.files.len() as int;
    match s.cursor {
        Some(i) => {
            assert(prev_index(next_index(i, len), len) == i);
            assert(next_index(prev_index(i, len), len) == i);
            assert(SessionView { cursor: Some(i), ..s } == s);
        },
        None => {},
    }
}

/// Toggling is its own inverse: two toggles at the same cursor position
/// restore the session exactly.
pub proof fn lemma_toggle_involutive(s: SessionView)
    requires
        s.wf(),
    ensures
        s.toggled().toggled() == s,
{
    match s.cursor {
        Some(i) => {
            assert(s.toggled().toggled().files =~= s.files);
        },
        None => {},
    }
}

/// Appending a character and immediately deleting the last one restores
/// the buffer — and the whole session — for any mode other than Normal.
pub proof fn lemma_append_then_delete(s: SessionView, m: Mode, c: char)
    requires
        m != Mode::Normal,
    ensures
        s.appended(m, c).deleted(m) == s,
{
    match m {
        Mode::Normal => {},
        Mode::EditingCommitMessage => {
            assert(s.commit_message.push(c).drop_last() =~= s.commit_message);
        },
        Mode::EditingPRTitle => {
            assert(s.pr_title.push(c).drop_last() =~= s.pr_title);
        },
    }
}

/// Totality of the table, unlisted half: a key without a row for the
/// current mode changes no state and asks nothing of the loop.
pub proof fn lemma_unlisted_key_is_inert(s: SessionView, k: Key)
    requires
        !key_listed(s.mode, k),
    ensures
        step_state(s, k) == s,
        step_signal(s, k) == Signal::Proceed,
{
}

/// Dispatch preserves the session's structural invariant, whatever the
/// key: no row of the table can leave the cursor out of bounds.
pub proof fn lemma_step_preserves_wf(s: SessionView, k: Key)
    requires
        s.wf(),
    ensures
        step_state(s, k).wf(),
{
}

/// The confirmation signal fires exactly from Normal mode on the confirm
/// key: an operator can never submit mid-edit.
pub proof fn lemma_confirm_only_in_normal(s: SessionView, k: Key)
    ensures
        step_signal(s, k) == Signal::Confirm <==> (s.mode == Mode::Normal && k == Key::Enter),
{
}

/// The global interrupt is honored in every mode: the loop is told to
/// leave at once and the session state is left untouched, so no trigger
/// fires on the way out.
pub proof fn lemma_interrupt_is_immediate(s: SessionView)
    ensures
        step_signal(s, Key::Interrupt) == Signal::Interrupt,
        step_state(s, Key::Interrupt) == s,
{
}

} // verus!
