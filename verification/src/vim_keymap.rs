//! The Vim key map, stated key by key over [`step`]: for each key, the
//! binding the editor receives and the state the layer moves to, written out
//! as concrete values.

use vstd::prelude::*;

use crate::editor::{Binding, Key, KeyPress, Message, Motion, NamedKey, VimAction};
use crate::vim::{VimMode, VimPendingOperator, VimState, Reply, step, is_focused, key_char};

verus! {

/// A focused press of the character key `c`, reported as the Latin
/// character `c`, with no Control, Alt or Command held.
pub open spec fn plain_char_press(kp: KeyPress, c: char) -> bool {
    &&& is_focused(kp)
    &&& !kp.modifiers.control && !kp.modifiers.alt && !kp.modifiers.command
    &&& kp.modified_key matches Key::Character(_)
    &&& key_char(kp.key) == Some(c)
    &&& kp.latin == Some(c)
}

/// A focused press of the named key `n` with no Control, Alt or Command held.
pub open spec fn plain_named_press(kp: KeyPress, n: NamedKey) -> bool {
    &&& is_focused(kp)
    &&& !kp.modifiers.control && !kp.modifiers.alt && !kp.modifiers.command
    &&& kp.key == Key::Named(n)
    &&& kp.modified_key == Key::Named(n)
}

/// The answer made of the single binding `b`.
pub open spec fn just(b: Binding) -> Option<Reply> {
    Some(Reply::One(b))
}

/// The answer made of the bindings `bs`, in order.
pub open spec fn seq_of(bs: Seq<Binding>) -> Option<Reply> {
    Some(Reply::Many(bs))
}

/// The answer that consumes the key and does nothing.
pub open spec fn nothing() -> Option<Reply> {
    Some(Reply::Many(Seq::empty()))
}

pub open spec fn set_mode(m: VimMode) -> Binding {
    Binding::Custom(Message::Vim(VimAction::SetMode(m)))
}

pub open spec fn action(a: VimAction) -> Binding {
    Binding::Custom(Message::Vim(a))
}

/// `n` copies of `b`.
pub open spec fn times(n: nat, b: Binding) -> Seq<Binding> {
    Seq::new(n, |_i: int| b)
}

/// Normal mode, letter keys (no count, nothing pending): `h` `j` `k` `l`
/// and space move left, down, up, right and right; `w` and `e` move a word
/// right and `b` a word left; `0` and `^` go to the line start and `$` to
/// its end; `g`, `y` and `d` wait for their second key; `G` goes to the end
/// of the buffer; `i` `a` `o` (and `I` `A` `O`) enter Insert mode at their
/// places; `v` and `V` enter Visual and line-wise Visual mode; `Y` yanks the
/// line, `D` deletes to the line end, `p` and `P` paste after and before,
/// `x` and `X` delete forward and backward, `u` undoes; any other letter is
/// consumed.
#[verifier::rlimit(40)]
pub proof fn normal_mode_letter_keys(s: VimState, kp: KeyPress, c: char)
    requires
        s.mode == VimMode::Normal,
        s.pending_operator is None,
        s.count_prefix is None,
        plain_char_press(kp, c),
    ensures
        c == 'h' ==> step(s, kp) == (s, just(Binding::Move(Motion::Left))),
        c == 'j' ==> step(s, kp) == (s, just(Binding::Move(Motion::Down))),
        c == 'k' ==> step(s, kp) == (s, just(Binding::Move(Motion::Up))),
        c == 'l' || c == ' ' ==> step(s, kp) == (s, just(Binding::Move(Motion::Right))),
        c == 'w' || c == 'e' ==> step(s, kp) == (s, just(Binding::Move(Motion::WordRight))),
        c == 'b' ==> step(s, kp) == (s, just(Binding::Move(Motion::WordLeft))),
        c == '0' || c == '^' ==> step(s, kp) == (s, just(Binding::Move(Motion::Home))),
        c == '$' ==> step(s, kp) == (s, just(Binding::Move(Motion::End))),
        c == 'g' ==> step(s, kp) == (
            VimState { pending_operator: Some(VimPendingOperator::G), ..s },
            nothing(),
        ),
        c == 'y' ==> step(s, kp) == (
            VimState { pending_operator: Some(VimPendingOperator::Y), ..s },
            nothing(),
        ),
        c == 'd' ==> step(s, kp) == (
            VimState { pending_operator: Some(VimPendingOperator::D), ..s },
            nothing(),
        ),
        c == 'i' ==> step(s, kp) == (
            VimState { mode: VimMode::Insert, ..s },
            just(set_mode(VimMode::Insert)),
        ),
        c == 'a' ==> step(s, kp) == (
            VimState { mode: VimMode::Insert, ..s },
            seq_of(seq![Binding::Move(Motion::Right), set_mode(VimMode::Insert)]),
        ),
        c == 'o' ==> step(s, kp) == (
            VimState { mode: VimMode::Insert, ..s },
            seq_of(seq![Binding::Move(Motion::End), Binding::Enter, set_mode(VimMode::Insert)]),
        ),
        c == 'v' ==> step(s, kp) == (
            VimState { mode: VimMode::Visual, ..s },
            just(set_mode(VimMode::Visual)),
        ),
        c == 'p' ==> step(s, kp) == (s, just(action(VimAction::Paste { before: false }))),
        c == 'x' ==> step(s, kp) == (s, just(Binding::Delete)),
        c == 'u' ==> step(s, kp) == (s, just(Binding::Custom(Message::Undo))),
        kp.modifiers.shift && c == 'G' ==> step(s, kp) == (s, just(action(VimAction::GoToBottom))),
        kp.modifiers.shift && c == 'I' ==> step(s, kp) == (
            VimState { mode: VimMode::Insert, ..s },
            seq_of(seq![Binding::Move(Motion::Home), set_mode(VimMode::Insert)]),
        ),
        kp.modifiers.shift && c == 'A' ==> step(s, kp) == (
            VimState { mode: VimMode::Insert, ..s },
            seq_of(seq![Binding::Move(Motion::End), set_mode(VimMode::Insert)]),
        ),
        kp.modifiers.shift && c == 'O' ==> step(s, kp) == (
            VimState { mode: VimMode::Insert, ..s },
            seq_of(
                seq![
                    Binding::Move(Motion::Home),
                    Binding::Enter,
                    Binding::Move(Motion::Up),
                    set_mode(VimMode::Insert),
                ],
            ),
        ),
        kp.modifiers.shift && c == 'V' ==> step(s, kp) == (
            VimState { mode: VimMode::VisualLine, ..s },
            seq_of(seq![Binding::SelectLine, set_mode(VimMode::VisualLine)]),
        ),
        kp.modifiers.shift && c == 'Y' ==> step(s, kp) == (s, just(action(VimAction::YankLine))),
        kp.modifiers.shift && c == 'D' ==> step(s, kp) == (
            s,
            seq_of(seq![Binding::Select(Motion::End), Binding::Delete]),
        ),
        kp.modifiers.shift && c == 'P' ==> step(s, kp) == (
            s,
            just(action(VimAction::Paste { before: true })),
        ),
        kp.modifiers.shift && c == 'X' ==> step(s, kp) == (s, just(Binding::Backspace)),
        !kp.modifiers.shift && (c == 'G' || c == 'I' || c == 'A' || c == 'O' || c == 'V' || c
            == 'Y' || c == 'D' || c == 'P' || c == 'X') ==> step(s, kp) == (s, nothing()),
        c == 'z' || c == 'q' || c == 'Z' ==> step(s, kp) == (s, nothing()),
{
    let ins = set_mode(VimMode::Insert);
    assert(seq![Binding::Move(Motion::Right)].push(ins) =~= seq![Binding::Move(Motion::Right), ins]);
    assert(seq![Binding::Move(Motion::End)].push(ins) =~= seq![Binding::Move(Motion::End), ins]);
    assert(seq![Binding::Move(Motion::Home)].push(ins) =~= seq![Binding::Move(Motion::Home), ins]);
    assert(seq![Binding::Move(Motion::End), Binding::Enter].push(ins) =~= seq![
        Binding::Move(Motion::End),
        Binding::Enter,
        ins,
    ]);
    assert(seq![Binding::Move(Motion::Home), Binding::Enter, Binding::Move(Motion::Up)].push(ins)
        =~= seq![Binding::Move(Motion::Home), Binding::Enter, Binding::Move(Motion::Up), ins]);
}

/// Normal mode: `u` undoes, whatever count was typed before it; the count
/// is forgotten.
pub proof fn normal_mode_u_undoes(s: VimState, kp: KeyPress)
    requires
        s.mode == VimMode::Normal,
        s.pending_operator is None,
        plain_char_press(kp, 'u'),
    ensures
        step(s, kp) == (VimState { count_prefix: None, ..s }, just(Binding::Custom(Message::Undo))),
{
}

/// Normal mode: Control-`r` redoes, Control-`u` / Control-`b` page up and
/// Control-`d` / Control-`f` page down (with no count); any other Control key
/// is left to the text editor.
pub proof fn normal_mode_control_keys(s: VimState, kp: KeyPress, c: char)
    requires
        s.mode == VimMode::Normal,
        s.pending_operator is None,
        s.count_prefix is None,
        is_focused(kp),
        kp.modifiers.control,
        kp.modified_key matches Key::Character(_),
        kp.latin == Some(c),
        c != '[',
    ensures
        c == 'r' ==> step(s, kp) == (s, just(Binding::Custom(Message::Redo))),
        c == 'u' || c == 'b' ==> step(s, kp) == (s, just(Binding::Move(Motion::PageUp))),
        c == 'd' || c == 'f' ==> step(s, kp) == (s, just(Binding::Move(Motion::PageDown))),
        c == 's' || c == 'c' || c == 'v' ==> step(s, kp) == (s, Option::<Reply>::None),
{
}

/// Visual mode, either kind, letter keys (no count): the letter motions
/// extend the selection; `g` and `G` extend it to the top and the bottom;
/// `y` / `Y` copy the selection, `d` `D` `x` `X` delete it and `p` / `P`
/// paste over it, each returning to Normal mode; `v` / `V` leave for Normal
/// mode; any other letter is consumed.
#[verifier::rlimit(40)]
pub proof fn visual_mode_letter_keys(s: VimState, kp: KeyPress, c: char)
    requires
        s.mode == VimMode::Visual || s.mode == VimMode::VisualLine,
        s.pending_operator is None,
        s.count_prefix is None,
        plain_char_press(kp, c),
    ensures
        c == 'h' ==> step(s, kp) == (s, just(Binding::Select(Motion::Left))),
        c == 'j' ==> step(s, kp) == (s, just(Binding::Select(Motion::Down))),
        c == 'k' ==> step(s, kp) == (s, just(Binding::Select(Motion::Up))),
        c == 'l' || c == ' ' ==> step(s, kp) == (s, just(Binding::Select(Motion::Right))),
        c == 'w' || c == 'e' ==> step(s, kp) == (s, just(Binding::Select(Motion::WordRight))),
        c == 'b' ==> step(s, kp) == (s, just(Binding::Select(Motion::WordLeft))),
        c == '0' || c == '^' ==> step(s, kp) == (s, just(Binding::Select(Motion::Home))),
        c == '$' ==> step(s, kp) == (s, just(Binding::Select(Motion::End))),
        c == 'g' ==> step(s, kp) == (s, just(action(VimAction::VisualGoToTop))),
        kp.modifiers.shift && c == 'G' ==> step(s, kp) == (
            s,
            just(action(VimAction::VisualGoToBottom)),
        ),
        c == 'y' || c == 'Y' ==> step(s, kp) == (
            VimState { mode: VimMode::Normal, last_yank_is_line: s.mode == VimMode::VisualLine, ..s },
            seq_of(seq![Binding::Copy, set_mode(VimMode::Normal)]),
        ),
        c == 'd' || c == 'D' || c == 'x' || c == 'X' ==> step(s, kp) == (
            VimState { mode: VimMode::Normal, ..s },
            seq_of(seq![Binding::Delete, set_mode(VimMode::Normal)]),
        ),
        c == 'p' || c == 'P' ==> step(s, kp) == (
            VimState { mode: VimMode::Normal, ..s },
            seq_of(seq![Binding::Paste, set_mode(VimMode::Normal)]),
        ),
        c == 'v' || c == 'V' ==> step(s, kp) == (
            VimState { mode: VimMode::Normal, ..s },
            just(action(VimAction::Escape)),
        ),
        c == 'u' || c == 'z' || c == 'i' || (!kp.modifiers.shift && c == 'G') ==> step(s, kp) == (
            s,
            nothing(),
        ),
{
}

/// Visual mode, either kind: deleting the selection (`d`, `D`, `x`, `X`)
/// answers a deletion followed by the return to Normal mode, whatever count
/// was typed; the count is forgotten.
pub proof fn visual_mode_delete(s: VimState, kp: KeyPress, c: char)
    requires
        s.mode == VimMode::Visual || s.mode == VimMode::VisualLine,
        s.pending_operator is None,
        plain_char_press(kp, c),
        c == 'd' || c == 'D' || c == 'x' || c == 'X',
    ensures
        step(s, kp) == (
            VimState { mode: VimMode::Normal, count_prefix: None, ..s },
            seq_of(seq![Binding::Delete, set_mode(VimMode::Normal)]),
        ),
{
}

/// Normal mode: a named motion key after a count of `n` (two or more)
/// moves `n` times in its direction, and the count is forgotten.
pub proof fn count_repeats_named_motion(s: VimState, kp: KeyPress, n: usize, k: NamedKey)
    requires
        s.mode == VimMode::Normal,
        s.pending_operator is None,
        s.count_prefix == Some(n),
        n >= 2,
        plain_named_press(kp, k),
    ensures
        ({
            let after = VimState { count_prefix: None, ..s };
            &&& k == NamedKey::ArrowLeft || k == NamedKey::Backspace ==> step(s, kp) == (
                after,
                seq_of(times(n as nat, Binding::Move(Motion::Left))),
            )
            &&& k == NamedKey::ArrowRight ==> step(s, kp) == (
                after,
                seq_of(times(n as nat, Binding::Move(Motion::Right))),
            )
            &&& k == NamedKey::ArrowUp ==> step(s, kp) == (
                after,
                seq_of(times(n as nat, Binding::Move(Motion::Up))),
            )
            &&& k == NamedKey::ArrowDown || k == NamedKey::Enter ==> step(s, kp) == (
                after,
                seq_of(times(n as nat, Binding::Move(Motion::Down))),
            )
            &&& k == NamedKey::Home ==> step(s, kp) == (
                after,
                seq_of(times(n as nat, Binding::Move(Motion::Home))),
            )
            &&& k == NamedKey::End ==> step(s, kp) == (
                after,
                seq_of(times(n as nat, Binding::Move(Motion::End))),
            )
            &&& k == NamedKey::PageUp ==> step(s, kp) == (
                after,
                seq_of(times(n as nat, Binding::Move(Motion::PageUp))),
            )
            &&& k == NamedKey::PageDown ==> step(s, kp) == (
                after,
                seq_of(times(n as nat, Binding::Move(Motion::PageDown))),
            )
        }),
{
}

/// Normal and Visual mode: a letter motion after a count of `n` (two or
/// more) moves, or extends the selection, `n` times; the count is forgotten.
pub proof fn count_repeats_letter_motion(s: VimState, kp: KeyPress, n: usize, c: char)
    requires
        s.mode != VimMode::Insert,
        s.pending_operator is None,
        s.count_prefix == Some(n),
        n >= 2,
        plain_char_press(kp, c),
    ensures
        ({
            let after = VimState { count_prefix: None, ..s };
            let moves = s.mode == VimMode::Normal;
            let b = |m: Motion| if moves { Binding::Move(m) } else { Binding::Select(m) };
            &&& c == 'h' ==> step(s, kp) == (after, seq_of(times(n as nat, b(Motion::Left))))
            &&& c == 'j' ==> step(s, kp) == (after, seq_of(times(n as nat, b(Motion::Down))))
            &&& c == 'k' ==> step(s, kp) == (after, seq_of(times(n as nat, b(Motion::Up))))
            &&& (c == 'l' || c == ' ') ==> step(s, kp) == (
                after,
                seq_of(times(n as nat, b(Motion::Right))),
            )
            &&& (c == 'w' || c == 'e') ==> step(s, kp) == (
                after,
                seq_of(times(n as nat, b(Motion::WordRight))),
            )
            &&& c == 'b' ==> step(s, kp) == (after, seq_of(times(n as nat, b(Motion::WordLeft))))
        }),
{
}

/// Visual mode: a named motion key after a count of `n` (two or more)
/// extends the selection `n` times; the count is forgotten.
pub proof fn count_repeats_named_selection(s: VimState, kp: KeyPress, n: usize)
    requires
        s.mode == VimMode::Visual || s.mode == VimMode::VisualLine,
        s.pending_operator is None,
        s.count_prefix == Some(n),
        n >= 2,
        plain_named_press(kp, NamedKey::ArrowDown),
    ensures
        step(s, kp) == (
            VimState { count_prefix: None, ..s },
            seq_of(times(n as nat, Binding::Select(Motion::Down))),
        ),
{
}

} // verus!
