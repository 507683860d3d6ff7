//! Properties of the Vim layer that hold across all key presses, or across
//! several presses in a row, proved over [`step`].

use vstd::prelude::*;

use crate::editor::{Binding, Key, KeyPress, Motion, VimAction};
use crate::vim::{
    VimMode, VimPendingOperator, VimState, Reply, step, is_focused, is_escape, enter, consumed,
    one, many, vim_msg, count_digit, key_char, named_motion, letter_motion, operator_key,
    operator_action, initial_state, reset, with_digit, extended_count, visual_step,
};

verus! {

/// The Vim layer's own consistency: an operator is only ever pending in
/// Normal mode, and Insert mode carries no count.
pub open spec fn well_formed(s: VimState) -> bool {
    &&& s.pending_operator is Some ==> s.mode == VimMode::Normal
    &&& s.mode == VimMode::Insert ==> s.count_prefix is None
}

/// The last binding of an answer.
pub open spec fn last_binding(reply: Option<Reply>) -> Option<Binding> {
    match reply {
        Some(Reply::One(b)) => Some(b),
        Some(Reply::Many(bs)) => if bs.len() > 0 {
            Some(bs.last())
        } else {
            None
        },
        None => None,
    }
}

/// A key press with no Control, Alt or Command held.
pub open spec fn plain(kp: KeyPress) -> bool {
    !kp.modifiers.control && !kp.modifiers.alt && !kp.modifiers.command
}

/// A fresh editor starts in a consistent state.
pub proof fn initial_state_well_formed()
    ensures
        well_formed(initial_state()),
{
}

/// Every key press keeps the Vim state consistent.
pub proof fn step_preserves_well_formed(s: VimState, kp: KeyPress)
    requires
        well_formed(s),
    ensures
        well_formed(step(s, kp).0),
{
}

/// A key press while the editor does not have the focus changes nothing and
/// is left to the text editor.
pub proof fn unfocused_key_is_ignored(s: VimState, kp: KeyPress)
    requires
        !is_focused(kp),
    ensures
        step(s, kp) == (s, Option::<Reply>::None),
{
}

/// Escape (or Control-`[`) returns to Normal mode from every mode, forgets
/// any pending operator and count, and tells the application so; leaving
/// Insert mode also moves the cursor one place left.
pub proof fn escape_returns_to_normal(s: VimState, kp: KeyPress)
    requires
        is_focused(kp),
        is_escape(kp),
    ensures
        step(s, kp).0 == enter(s, VimMode::Normal),
        step(s, kp).0.mode == VimMode::Normal,
        step(s, kp).0.pending_operator is None,
        step(s, kp).0.count_prefix is None,
        last_binding(step(s, kp).1) == Some(vim_msg(VimAction::Escape)),
        s.mode == VimMode::Insert ==> step(s, kp).1 == many(
            seq![Binding::Move(Motion::Left), vim_msg(VimAction::Escape)],
        ),
{
}

/// In Insert mode every key but Escape goes to the text editor untouched.
pub proof fn insert_mode_passes_keys_through(s: VimState, kp: KeyPress)
    requires
        s.mode == VimMode::Insert,
        !is_escape(kp),
    ensures
        step(s, kp) == (s, Option::<Reply>::None),
{
}

/// In Normal and Visual mode no key without Control, Alt or Command reaches
/// the text editor's own bindings: each is answered by the Vim layer, so no
/// letter is ever inserted outside Insert mode.
pub proof fn command_modes_consume_plain_keys(s: VimState, kp: KeyPress)
    requires
        is_focused(kp),
        s.mode != VimMode::Insert,
        plain(kp),
    ensures
        step(s, kp).1 is Some,
{
}

/// System shortcuts held with the Command modifier (save, copy, paste, ...)
/// reach the text editor untouched in Normal and Visual mode, as long as
/// Control is not held and no operator is pending.
pub proof fn command_shortcuts_pass_through(s: VimState, kp: KeyPress)
    requires
        s.mode != VimMode::Insert,
        s.pending_operator is None,
        !is_escape(kp),
        !kp.modifiers.control,
        kp.modifiers.command,
    ensures
        step(s, kp) == (s, Option::<Reply>::None),
{
}

/// Whenever a key press changes the mode, its answer ends by announcing the
/// new mode to the application (returning to Normal mode may be announced
/// as an Escape).
pub proof fn mode_changes_are_announced(s: VimState, kp: KeyPress)
    requires
        step(s, kp).0.mode != s.mode,
    ensures
        last_binding(step(s, kp).1) == Some(vim_msg(VimAction::SetMode(step(s, kp).0.mode)))
            || (step(s, kp).0.mode == VimMode::Normal && last_binding(step(s, kp).1) == Some(
            vim_msg(VimAction::Escape),
        )),
{
}

/// An operator key pressed twice in Normal mode (`gg`, `yy`, `dd`): the
/// first press is consumed and leaves the operator pending, the second asks
/// for the operator's action and clears the operator and the count.
pub proof fn operator_key_twice(s: VimState, kp: KeyPress, op: VimPendingOperator)
    requires
        s.mode == VimMode::Normal,
        s.pending_operator is None,
        is_focused(kp),
        !is_escape(kp),
        plain(kp),
        kp.modified_key matches Key::Character(_),
        count_digit(s, kp) is None,
        kp.latin == Some(operator_key(op)),
    ensures
        step(s, kp).0 == (VimState { pending_operator: Some(op), ..s }),
        step(s, kp).1 == consumed(),
        step(step(s, kp).0, kp) == (reset(s), one(vim_msg(operator_action(op)))),
{
}

/// A count typed before a motion in Normal mode repeats the motion that many
/// times (once for a count of one) and is then forgotten.
pub proof fn count_repeats_motion(s: VimState, digit: KeyPress, motion: KeyPress, d: int)
    requires
        s.mode == VimMode::Normal,
        s.pending_operator is None,
        s.count_prefix is None,
        is_focused(digit),
        !is_escape(digit),
        plain(digit),
        count_digit(s, digit) == Some(d),
        is_focused(motion),
        !is_escape(motion),
        plain(motion),
        key_char(motion.key) matches Some(c) && !('0' <= c <= '9'),
        named_motion(motion.modified_key) is None,
        !(motion.modified_key matches Key::Named(crate::editor::NamedKey::Tab)),
        motion.latin matches Some(c) && letter_motion(c) is Some,
    ensures
        ({
            let s1 = step(s, digit).0;
            let m = letter_motion(motion.latin->0)->0;
            &&& s1.count_prefix == Some(d as usize)
            &&& step(s1, motion).0.count_prefix is None
            &&& step(s1, motion).1 == if d <= 1 {
                one(Binding::Move(m))
            } else {
                many(Seq::new(d as nat, |_i: int| Binding::Move(m)))
            }
        }),
{
}

/// Pressing Escape again after Escape changes nothing more.
pub proof fn escape_is_idempotent(s: VimState, kp: KeyPress)
    requires
        is_focused(kp),
        is_escape(kp),
    ensures
        step(step(s, kp).0, kp).0 == step(s, kp).0,
{
}

/// Yanking a selection returns to Normal mode and records whether the
/// selection was line-wise, so that a later paste can tell.
pub proof fn visual_yank_records_linewise(s: VimState, kp: KeyPress)
    requires
        s.mode == VimMode::Visual || s.mode == VimMode::VisualLine,
        is_focused(kp),
        !is_escape(kp),
        plain(kp),
        count_digit(s, kp) is None,
        named_motion(kp.modified_key) is None,
        !(kp.modified_key matches Key::Named(crate::editor::NamedKey::Tab)),
        kp.latin == Some('y') || kp.latin == Some('Y'),
    ensures
        step(s, kp).0.mode == VimMode::Normal,
        step(s, kp).0.last_yank_is_line == (s.mode == VimMode::VisualLine),
        step(s, kp).1 == many(
            seq![Binding::Copy, vim_msg(VimAction::SetMode(VimMode::Normal))],
        ),
{
}

/// An answer types text into the buffer.
pub open spec fn inserts_text(reply: Option<Reply>) -> bool {
    match reply {
        Some(Reply::One(b)) => b is Insert,
        Some(Reply::Many(bs)) => exists|i: int| 0 <= i < bs.len() && #[trigger] bs[i] is Insert,
        None => false,
    }
}

/// A count digit in Normal mode (with no operator pending) or in Visual
/// mode is consumed and appended to the count; nothing else changes.
pub proof fn digit_extends_count(s: VimState, kp: KeyPress, d: int)
    requires
        s.mode != VimMode::Insert,
        s.pending_operator is None,
        is_focused(kp),
        !is_escape(kp),
        !kp.modifiers.control,
        !kp.modifiers.command,
        count_digit(s, kp) == Some(d),
    ensures
        step(s, kp) == (with_digit(s, d), consumed()),
        step(s, kp).0.count_prefix == Some(extended_count(s, d) as usize),
        step(s, kp).0.mode == s.mode,
        step(s, kp).0.pending_operator is None,
        step(s, kp).0.last_yank_is_line == s.last_yank_is_line,
{
}

/// A pending operator that the key does not complete is dropped, and the
/// key is then handled as if nothing had been pending.
pub proof fn unmatched_operator_is_dropped(s: VimState, kp: KeyPress, op: VimPendingOperator)
    requires
        s.mode == VimMode::Normal,
        s.pending_operator == Some(op),
        is_focused(kp),
        !is_escape(kp),
        kp.latin != Some(operator_key(op)),
    ensures
        step(s, kp) == step(VimState { pending_operator: None, ..s }, kp),
{
}

/// After a key in Visual mode: the mode is kept or back to Normal, and no
/// operator becomes pending.
pub open spec fn visual_keeps_to_visual(before: VimState, after: VimState) -> bool {
    &&& after.mode == before.mode || after.mode == VimMode::Normal
    &&& after.pending_operator is None || after.pending_operator == before.pending_operator
}

/// In Normal and Visual mode a key without Control, Alt or Command is
/// answered by the Vim layer and never types text into the buffer. In
/// Visual mode it leaves the mode as it is or returns to Normal mode, and
/// sets no operator pending.
pub proof fn plain_keys_never_insert_text(s: VimState, kp: KeyPress)
    requires
        is_focused(kp),
        s.mode != VimMode::Insert,
        plain(kp),
    ensures
        (step(s, kp).1 is Some),
        !inserts_text(step(s, kp).1),
        s.mode == VimMode::Visual || s.mode == VimMode::VisualLine ==> visual_keeps_to_visual(
            s,
            step(s, kp).0,
        ),
{
    let r = step(s, kp).1;
    if let Some(Reply::Many(bs)) = r {
        assert forall|i: int| 0 <= i < bs.len() implies !(#[trigger] bs[i] is Insert) by {
            assert(bs[i] !is Insert);
        }
    }
}

/// `a` and `b` are equal but for the kind of yank they record.
pub open spec fn equal_but_yank_kind(a: VimState, b: VimState) -> bool {
    a.mode == b.mode && a.count_prefix == b.count_prefix && a.pending_operator
        == b.pending_operator
}

/// The kinds of yank after a key in line-wise (`line`) and character-wise
/// (`chars`) Visual mode: equal, or the key was a yank and only the
/// line-wise mode recorded a line-wise yank.
pub open spec fn yank_kinds_agree(kp: KeyPress, line: VimState, chars: VimState) -> bool {
    line.last_yank_is_line == chars.last_yank_is_line || ((kp.latin == Some('y') || kp.latin
        == Some('Y')) && line.last_yank_is_line && !chars.last_yank_is_line)
}

/// Line-wise and character-wise Visual mode answer every key alike; their
/// states afterwards differ at most in the kind of yank recorded, and only
/// for a yank (`y` or `Y`), which the line-wise mode records as line-wise.
pub proof fn visual_kinds_differ_only_in_yank_kind(s: VimState, kp: KeyPress)
    ensures
        visual_step(s, kp, true).1 == visual_step(s, kp, false).1,
        equal_but_yank_kind(visual_step(s, kp, true).0, visual_step(s, kp, false).0),
        yank_kinds_agree(kp, visual_step(s, kp, true).0, visual_step(s, kp, false).0),
{
}

} // verus!
