//! The Vim key-binding layer: a state machine that turns key presses into
//! text-editor bindings.
//!
//! [`step`] states, for every state and key press, the next state and the
//! answer; [`handle_vim_key_press`] is proved to follow it.

use vstd::prelude::*;

use crate::editor::{Binding, Key, KeyPress, Message, Motion, NamedKey, Status, VimAction, widened};

verus! {

broadcast use vstd::string::group_string_axioms;

/// The modes of the Vim layer.
#[derive(Debug, Clone, Copy, PartialEq, Eq, Structural)]
pub enum VimMode {
    Normal,
    Insert,
    Visual,
    VisualLine,
}

impl Default for VimMode {
    fn default() -> (m: VimMode)
        ensures
            m == VimMode::Normal,
    {
        VimMode::Normal
    }
}

/// The status-line label of a mode.
pub open spec fn mode_label(m: VimMode) -> Seq<char> {
    match m {
        VimMode::Normal => "-- NORMAL --"@,
        VimMode::Insert => "-- INSERT --"@,
        VimMode::Visual => "-- VISUAL --"@,
        VimMode::VisualLine => "-- VISUAL LINE --"@,
    }
}

impl VimMode {
    /// The label shown for this mode.
    pub fn label(&self) -> (s: &'static str)
        ensures
            s@ == mode_label(*self),
    {
        match self {
            VimMode::Normal => "-- NORMAL --",
            VimMode::Insert => "-- INSERT --",
            VimMode::Visual => "-- VISUAL --",
            VimMode::VisualLine => "-- VISUAL LINE --",
        }
    }
}

/// An operator key waiting for its second key.
#[derive(Debug, Clone, Copy, PartialEq, Eq, Structural)]
pub enum VimPendingOperator {
    /// `g`, waiting for a second `g` (`gg`).
    G,
    /// `y` in Normal mode, waiting for a second `y` (`yy`).
    Y,
    /// `d` in Normal mode, waiting for a second `d` (`dd`).
    D,
}

/// The state of the Vim layer.
#[derive(Debug, Clone, Copy, PartialEq, Eq, Structural)]
pub struct VimState {
    pub mode: VimMode,
    pub count_prefix: Option<usize>,
    pub pending_operator: Option<VimPendingOperator>,
    pub last_yank_is_line: bool,
}

impl Default for VimState {
    fn default() -> (s: VimState)
        ensures
            s == initial_state(),
    {
        VimState {
            mode: VimMode::Normal,
            count_prefix: None,
            pending_operator: None,
            last_yank_is_line: false,
        }
    }
}

/// The state a fresh editor starts in.
pub open spec fn initial_state() -> VimState {
    VimState {
        mode: VimMode::Normal,
        count_prefix: None,
        pending_operator: None,
        last_yank_is_line: false,
    }
}

/// `s` with no pending operator and no count.
pub open spec fn reset(s: VimState) -> VimState {
    VimState { pending_operator: None, count_prefix: None, ..s }
}

impl VimState {
    /// Forgets the pending operator and the count prefix.
    pub fn reset_operator_and_count(&mut self)
        ensures
            *final(self) == reset(*old(self)),
    {
        self.pending_operator = None;
        self.count_prefix = None;
    }
}

/// The answer to a key press, as the contracts speak of it: one binding, or a
/// sequence of bindings.
pub enum Reply {
    One(Binding),
    Many(Seq<Binding>),
}

/// `r` is the binding that `reply` describes (`None` for `None`).
pub open spec fn answers(r: Option<Binding>, reply: Option<Reply>) -> bool {
    match reply {
        None => r is None,
        Some(Reply::One(b)) => r == Some(b),
        Some(Reply::Many(bs)) => r matches Some(Binding::Sequence(v)) && v@ == bs,
    }
}

pub open spec fn one(b: Binding) -> Option<Reply> {
    Some(Reply::One(b))
}

pub open spec fn many(bs: Seq<Binding>) -> Option<Reply> {
    Some(Reply::Many(bs))
}

/// An empty sequence: the key is consumed and nothing happens.
pub open spec fn consumed() -> Option<Reply> {
    Some(Reply::Many(Seq::empty()))
}

pub open spec fn vim_msg(a: VimAction) -> Binding {
    Binding::Custom(Message::Vim(a))
}

/// `s` switched to mode `m`, with operator and count forgotten.
pub open spec fn enter(s: VimState, m: VimMode) -> VimState {
    VimState { mode: m, ..reset(s) }
}

/// The count that a repeated binding is performed with.
pub open spec fn repeat_count(s: VimState) -> int {
    match s.count_prefix {
        Some(n) => n as int,
        None => 1,
    }
}

/// `b` performed as many times as the count prefix says (once without a
/// count); the count is consumed.
pub open spec fn repeated(s: VimState, b: Binding) -> (VimState, Option<Reply>) {
    let n = repeat_count(s);
    (
        VimState { count_prefix: None, ..s },
        if n <= 1 {
            one(b)
        } else {
            many(Seq::new(n as nat, |_i: int| b))
        },
    )
}

/// The first character of a character key.
pub open spec fn key_char(k: Key) -> Option<char> {
    match k {
        Key::Character(s) => if s@.len() > 0 {
            Some(s@[0])
        } else {
            None
        },
        _ => None,
    }
}

/// The digit that a key press adds to the count prefix, if it is one: a key
/// `1`-`9`, or `0` once a count has begun, without Control, Alt or Command.
pub open spec fn count_digit(s: VimState, kp: KeyPress) -> Option<int> {
    if !kp.modifiers.control && !kp.modifiers.alt && !kp.modifiers.command {
        match key_char(kp.key) {
            Some(c) => if ('1' <= c && c <= '9') || (c == '0' && s.count_prefix is Some) {
                Some(c as int - '0' as int)
            } else {
                None
            },
            None => None,
        }
    } else {
        None
    }
}

/// The count after appending digit `d`.
pub open spec fn extended_count(s: VimState, d: int) -> int {
    match s.count_prefix {
        Some(n) => n * 10 + d,
        None => d,
    }
}

/// `s` with digit `d` appended to its count.
pub open spec fn with_digit(s: VimState, d: int) -> VimState {
    VimState { count_prefix: Some(extended_count(s, d) as usize), ..s }
}

/// The motion that a named key stands for in Normal and Visual mode.
pub open spec fn named_motion(k: Key) -> Option<Motion> {
    match k {
        Key::Named(NamedKey::ArrowLeft) => Some(Motion::Left),
        Key::Named(NamedKey::ArrowRight) => Some(Motion::Right),
        Key::Named(NamedKey::ArrowUp) => Some(Motion::Up),
        Key::Named(NamedKey::ArrowDown) => Some(Motion::Down),
        Key::Named(NamedKey::Home) => Some(Motion::Home),
        Key::Named(NamedKey::End) => Some(Motion::End),
        Key::Named(NamedKey::PageUp) => Some(Motion::PageUp),
        Key::Named(NamedKey::PageDown) => Some(Motion::PageDown),
        Key::Named(NamedKey::Enter) => Some(Motion::Down),
        Key::Named(NamedKey::Backspace) => Some(Motion::Left),
        _ => None,
    }
}

/// The motion that a letter key stands for in Normal and Visual mode.
pub open spec fn letter_motion(c: char) -> Option<Motion> {
    if c == ' ' || c == 'l' {
        Some(Motion::Right)
    } else if c == 'h' {
        Some(Motion::Left)
    } else if c == 'j' {
        Some(Motion::Down)
    } else if c == 'k' {
        Some(Motion::Up)
    } else if c == 'w' || c == 'e' {
        Some(widened(Motion::Right))
    } else if c == 'b' {
        Some(widened(Motion::Left))
    } else {
        None
    }
}

/// The page motion of a Control key in Normal and Visual mode.
pub open spec fn control_page(c: Option<char>) -> Option<Motion> {
    if c == Some('u') || c == Some('b') {
        Some(Motion::PageUp)
    } else if c == Some('d') || c == Some('f') {
        Some(Motion::PageDown)
    } else {
        None
    }
}

/// Escape, or Control-`[`.
pub open spec fn is_escape(kp: KeyPress) -> bool {
    (kp.modified_key matches Key::Named(NamedKey::Escape)) || (kp.modifiers.control && kp.latin
        == Some('['))
}

/// The key that completes a pending operator.
pub open spec fn operator_key(op: VimPendingOperator) -> char {
    match op {
        VimPendingOperator::G => 'g',
        VimPendingOperator::Y => 'y',
        VimPendingOperator::D => 'd',
    }
}

/// What a completed operator asks the application for.
pub open spec fn operator_action(op: VimPendingOperator) -> VimAction {
    match op {
        VimPendingOperator::G => VimAction::GoToTop,
        VimPendingOperator::Y => VimAction::YankLine,
        VimPendingOperator::D => VimAction::DeleteLine,
    }
}

/// Switching to Insert mode, after the bindings `before`.
pub open spec fn insert_after(s: VimState, before: Seq<Binding>) -> (VimState, Option<Reply>) {
    (
        enter(s, VimMode::Insert),
        many(before.push(vim_msg(VimAction::SetMode(VimMode::Insert)))),
    )
}

/// The letter commands of Normal mode (key `c`, with Shift when `shift`).
pub open spec fn normal_letter(s: VimState, c: Option<char>, shift: bool) -> (VimState, Option<Reply>) {
    match c {
        Some(ch) => if letter_motion(ch) is Some {
            repeated(s, Binding::Move(letter_motion(ch)->0))
        } else if ch == '0' || ch == '^' {
            (VimState { count_prefix: None, ..s }, one(Binding::Move(Motion::Home)))
        } else if ch == '$' {
            (VimState { count_prefix: None, ..s }, one(Binding::Move(Motion::End)))
        } else if ch == 'g' {
            (VimState { pending_operator: Some(VimPendingOperator::G), ..s }, consumed())
        } else if ch == 'G' && shift {
            (VimState { count_prefix: None, ..s }, one(vim_msg(VimAction::GoToBottom)))
        } else if ch == 'i' {
            (enter(s, VimMode::Insert), one(vim_msg(VimAction::SetMode(VimMode::Insert))))
        } else if ch == 'I' && shift {
            insert_after(s, seq![Binding::Move(Motion::Home)])
        } else if ch == 'a' {
            insert_after(s, seq![Binding::Move(Motion::Right)])
        } else if ch == 'A' && shift {
            insert_after(s, seq![Binding::Move(Motion::End)])
        } else if ch == 'o' {
            insert_after(s, seq![Binding::Move(Motion::End), Binding::Enter])
        } else if ch == 'O' && shift {
            insert_after(
                s,
                seq![Binding::Move(Motion::Home), Binding::Enter, Binding::Move(Motion::Up)],
            )
        } else if ch == 'v' {
            (enter(s, VimMode::Visual), one(vim_msg(VimAction::SetMode(VimMode::Visual))))
        } else if ch == 'V' && shift {
            (
                enter(s, VimMode::VisualLine),
                many(seq![Binding::SelectLine, vim_msg(VimAction::SetMode(VimMode::VisualLine))]),
            )
        } else if ch == 'y' {
            (VimState { pending_operator: Some(VimPendingOperator::Y), ..s }, consumed())
        } else if ch == 'Y' && shift {
            (reset(s), one(vim_msg(VimAction::YankLine)))
        } else if ch == 'd' {
            (VimState { pending_operator: Some(VimPendingOperator::D), ..s }, consumed())
        } else if ch == 'D' && shift {
            (reset(s), many(seq![Binding::Select(Motion::End), Binding::Delete]))
        } else if ch == 'p' {
            (reset(s), one(vim_msg(VimAction::Paste { before: false })))
        } else if ch == 'P' && shift {
            (reset(s), one(vim_msg(VimAction::Paste { before: true })))
        } else if ch == 'x' {
            (reset(s), one(Binding::Delete))
        } else if ch == 'X' && shift {
            (reset(s), one(Binding::Backspace))
        } else if ch == 'u' {
            (reset(s), one(Binding::Custom(Message::Undo)))
        } else {
            (reset(s), consumed())
        },
        None => (reset(s), consumed()),
    }
}

/// Normal mode once a pending operator has been dealt with.
pub open spec fn normal_keys(s: VimState, kp: KeyPress) -> (VimState, Option<Reply>) {
    if kp.modifiers.control {
        if control_page(kp.latin) is Some {
            repeated(s, Binding::Move(control_page(kp.latin)->0))
        } else if kp.latin == Some('r') {
            (s, one(Binding::Custom(Message::Redo)))
        } else {
            (s, None)
        }
    } else if kp.modifiers.command {
        (s, None)
    } else if count_digit(s, kp) is Some {
        (with_digit(s, count_digit(s, kp)->0), consumed())
    } else if named_motion(kp.modified_key) is Some {
        repeated(s, Binding::Move(named_motion(kp.modified_key)->0))
    } else if kp.modified_key matches Key::Named(NamedKey::Tab) {
        (s, consumed())
    } else if kp.modifiers.alt {
        (s, None)
    } else {
        normal_letter(s, kp.latin, kp.modifiers.shift)
    }
}

/// Normal mode: a pending operator is completed by its own key and dropped
/// by any other, which is then handled as usual.
pub open spec fn normal_step(s: VimState, kp: KeyPress) -> (VimState, Option<Reply>) {
    match s.pending_operator {
        Some(op) => if kp.latin == Some(operator_key(op)) {
            (
                VimState { pending_operator: None, count_prefix: None, ..s },
                one(vim_msg(operator_action(op))),
            )
        } else {
            normal_keys(VimState { pending_operator: None, ..s }, kp)
        },
        None => normal_keys(s, kp),
    }
}

/// Leaving Visual mode for Normal mode.
pub open spec fn leave_visual(s: VimState) -> VimState {
    enter(s, VimMode::Normal)
}

/// The letter commands of Visual mode (`line`: line-wise Visual mode).
pub open spec fn visual_letter(s: VimState, c: Option<char>, shift: bool, line: bool) -> (
    VimState,
    Option<Reply>,
) {
    let to_normal = vim_msg(VimAction::SetMode(VimMode::Normal));
    match c {
        Some(ch) => if letter_motion(ch) is Some {
            repeated(s, Binding::Select(letter_motion(ch)->0))
        } else if ch == '0' || ch == '^' {
            (VimState { count_prefix: None, ..s }, one(Binding::Select(Motion::Home)))
        } else if ch == '$' {
            (VimState { count_prefix: None, ..s }, one(Binding::Select(Motion::End)))
        } else if ch == 'g' {
            (VimState { count_prefix: None, ..s }, one(vim_msg(VimAction::VisualGoToTop)))
        } else if ch == 'G' && shift {
            (VimState { count_prefix: None, ..s }, one(vim_msg(VimAction::VisualGoToBottom)))
        } else if ch == 'y' || ch == 'Y' {
            (
                VimState { last_yank_is_line: line, ..leave_visual(s) },
                many(seq![Binding::Copy, to_normal]),
            )
        } else if ch == 'd' || ch == 'D' || ch == 'x' || ch == 'X' {
            (leave_visual(s), many(seq![Binding::Delete, to_normal]))
        } else if ch == 'p' || ch == 'P' {
            (leave_visual(s), many(seq![Binding::Paste, to_normal]))
        } else if ch == 'v' || ch == 'V' {
            (leave_visual(s), one(vim_msg(VimAction::Escape)))
        } else {
            (reset(s), consumed())
        },
        None => (reset(s), consumed()),
    }
}

/// Visual mode (`line`: line-wise Visual mode).
pub open spec fn visual_step(s: VimState, kp: KeyPress, line: bool) -> (VimState, Option<Reply>) {
    if kp.modifiers.control {
        if control_page(kp.latin) is Some {
            repeated(s, Binding::Select(control_page(kp.latin)->0))
        } else {
            (s, None)
        }
    } else if kp.modifiers.command {
        (s, None)
    } else if count_digit(s, kp) is Some {
        (with_digit(s, count_digit(s, kp)->0), consumed())
    } else if named_motion(kp.modified_key) is Some {
        repeated(s, Binding::Select(named_motion(kp.modified_key)->0))
    } else if kp.modified_key matches Key::Named(NamedKey::Tab) {
        (s, consumed())
    } else if kp.modifiers.alt {
        (s, None)
    } else {
        visual_letter(s, kp.latin, kp.modifiers.shift, line)
    }
}

/// The text editor has the focus.
pub open spec fn is_focused(kp: KeyPress) -> bool {
    kp.status matches Status::Focused { .. }
}

/// The whole machine: the next state and the answer for key press `kp` in
/// state `s`. `None` lets the text editor apply its own binding.
pub open spec fn step(s: VimState, kp: KeyPress) -> (VimState, Option<Reply>) {
    if !is_focused(kp) {
        (s, None)
    } else if is_escape(kp) {
        (
            enter(s, VimMode::Normal),
            if s.mode == VimMode::Insert {
                many(seq![Binding::Move(Motion::Left), vim_msg(VimAction::Escape)])
            } else {
                one(vim_msg(VimAction::Escape))
            },
        )
    } else {
        match s.mode {
            VimMode::Insert => (s, None),
            VimMode::Normal => normal_step(s, kp),
            VimMode::Visual => visual_step(s, kp, false),
            VimMode::VisualLine => visual_step(s, kp, true),
        }
    }
}

/// The digit that key press `kp` appends to the count in state `s`, if the
/// press reaches the count prefix at all.
pub open spec fn appended_digit(s: VimState, kp: KeyPress) -> Option<int> {
    if !is_focused(kp) || is_escape(kp) || kp.modifiers.control || kp.modifiers.command {
        None
    } else {
        match s.mode {
            VimMode::Insert => None,
            VimMode::Normal => match s.pending_operator {
                Some(op) => if kp.latin == Some(operator_key(op)) {
                    None
                } else {
                    count_digit(s, kp)
                },
                None => count_digit(s, kp),
            },
            _ => count_digit(s, kp),
        }
    }
}

/// The count prefix stays within `usize` when key press `kp` comes in state `s`.
pub open spec fn count_fits(s: VimState, kp: KeyPress) -> bool {
    appended_digit(s, kp) matches Some(d) ==> extended_count(s, d) <= usize::MAX
}

/// The first character of `s`.
fn first_char(s: &String) -> (c: Option<char>)
    ensures
        c == (if s@.len() > 0 {
            Some(s@[0])
        } else {
            None
        }),
{
    let mut it = s.as_str().chars();
    it.next()
}

/// The first character of a character key.
fn key_first_char(k: &Key) -> (c: Option<char>)
    ensures
        c == key_char(*k),
{
    match k {
        Key::Character(s) => first_char(s),
        _ => None,
    }
}

/// Whether `c` is the character `expected`.
fn is_char(c: Option<char>, expected: char) -> (b: bool)
    ensures
        b == (c == Some(expected)),
{
    match c {
        Some(x) => x == expected,
        None => false,
    }
}

/// The value of a decimal digit character.
fn digit_value(c: char) -> (d: Option<usize>)
    ensures
        d matches Some(x) ==> '0' <= c <= '9' && x == c as int - '0' as int,
        d is None ==> !('0' <= c <= '9'),
{
    match c {
        '0' => Some(0),
        '1' => Some(1),
        '2' => Some(2),
        '3' => Some(3),
        '4' => Some(4),
        '5' => Some(5),
        '6' => Some(6),
        '7' => Some(7),
        '8' => Some(8),
        '9' => Some(9),
        _ => None,
    }
}

/// The count digit of a key press (see [`count_digit`]).
fn count_digit_of(vim: &VimState, key_press: &KeyPress) -> (d: Option<usize>)
    ensures
        d matches Some(x) ==> count_digit(*vim, *key_press) == Some(x as int),
        d is None ==> count_digit(*vim, *key_press) is None,
{
    let m = key_press.modifiers;
    if !m.control && !m.alt && !m.command {
        match key_first_char(&key_press.key) {
            Some(c) => match digit_value(c) {
                Some(d) => if d != 0 || vim.count_prefix.is_some() {
                    Some(d)
                } else {
                    None
                },
                None => None,
            },
            None => None,
        }
    } else {
        None
    }
}

/// Appends digit `digit` to the count prefix.
fn push_count_digit(vim: &mut VimState, digit: usize)
    requires
        digit <= 9,
        extended_count(*old(vim), digit as int) <= usize::MAX,
    ensures
        *final(vim) == with_digit(*old(vim), digit as int),
{
    let new_count = match vim.count_prefix {
        Some(n) => n * 10 + digit,
        None => digit,
    };
    vim.count_prefix = Some(new_count);
}

/// The motion of a named key (see [`named_motion`]).
fn named_motion_of(k: &Key) -> (m: Option<Motion>)
    ensures
        m == named_motion(*k),
{
    match k {
        Key::Named(NamedKey::ArrowLeft) => Some(Motion::Left),
        Key::Named(NamedKey::ArrowRight) => Some(Motion::Right),
        Key::Named(NamedKey::ArrowUp) => Some(Motion::Up),
        Key::Named(NamedKey::ArrowDown) => Some(Motion::Down),
        Key::Named(NamedKey::Home) => Some(Motion::Home),
        Key::Named(NamedKey::End) => Some(Motion::End),
        Key::Named(NamedKey::PageUp) => Some(Motion::PageUp),
        Key::Named(NamedKey::PageDown) => Some(Motion::PageDown),
        Key::Named(NamedKey::Enter) => Some(Motion::Down),
        Key::Named(NamedKey::Backspace) => Some(Motion::Left),
        _ => None,
    }
}

/// The motion of a letter key (see [`letter_motion`]).
fn letter_motion_of(c: char) -> (m: Option<Motion>)
    ensures
        m == letter_motion(c),
{
    if c == ' ' || c == 'l' {
        Some(Motion::Right)
    } else if c == 'h' {
        Some(Motion::Left)
    } else if c == 'j' {
        Some(Motion::Down)
    } else if c == 'k' {
        Some(Motion::Up)
    } else if c == 'w' || c == 'e' {
        Some(Motion::Right.widen())
    } else if c == 'b' {
        Some(Motion::Left.widen())
    } else {
        None
    }
}

/// The page motion of a Control key (see [`control_page`]).
fn control_page_of(c: Option<char>) -> (m: Option<Motion>)
    ensures
        m == control_page(c),
{
    if is_char(c, 'u') || is_char(c, 'b') {
        Some(Motion::PageUp)
    } else if is_char(c, 'd') || is_char(c, 'f') {
        Some(Motion::PageDown)
    } else {
        None
    }
}

/// `motion` as a move (`select` false) or a selection (`select` true).
pub open spec fn motion_binding(motion: Motion, select: bool) -> Binding {
    if select {
        Binding::Select(motion)
    } else {
        Binding::Move(motion)
    }
}

/// Repeats a move or a selection as often as the count prefix says.
fn repeat(vim: &mut VimState, motion: Motion, select: bool) -> (r: Option<Binding>)
    ensures
        *final(vim) == repeated(*old(vim), motion_binding(motion, select)).0,
        answers(r, repeated(*old(vim), motion_binding(motion, select)).1),
{
    let count = match vim.count_prefix {
        Some(n) => n,
        None => 1,
    };
    vim.count_prefix = None;
    if count <= 1 {
        if select {
            Some(Binding::Select(motion))
        } else {
            Some(Binding::Move(motion))
        }
    } else {
        let ghost b = motion_binding(motion, select);
        let mut steps: Vec<Binding> = Vec::new();
        let mut i: usize = 0;
        while i < count
            invariant
                i <= count,
                b == motion_binding(motion, select),
                steps@ =~= Seq::new(i as nat, |_j: int| b),
            decreases count - i,
        {
            if select {
                steps.push(Binding::Select(motion));
            } else {
                steps.push(Binding::Move(motion));
            }
            i = i + 1;
        }
        Some(Binding::Sequence(steps))
    }
}

/// Repeats a move as often as the count prefix says.
fn repeat_motion(vim: &mut VimState, motion: Motion) -> (r: Option<Binding>)
    ensures
        *final(vim) == repeated(*old(vim), Binding::Move(motion)).0,
        answers(r, repeated(*old(vim), Binding::Move(motion)).1),
{
    repeat(vim, motion, false)
}

/// Repeats a selection as often as the count prefix says.
fn repeat_select(vim: &mut VimState, motion: Motion) -> (r: Option<Binding>)
    ensures
        *final(vim) == repeated(*old(vim), Binding::Select(motion)).0,
        answers(r, repeated(*old(vim), Binding::Select(motion)).1),
{
    repeat(vim, motion, true)
}

fn set_mode(m: VimMode) -> (b: Binding)
    ensures
        b == vim_msg(VimAction::SetMode(m)),
{
    Binding::Custom(Message::Vim(VimAction::SetMode(m)))
}

fn vim_action(a: VimAction) -> (b: Binding)
    ensures
        b == vim_msg(a),
{
    Binding::Custom(Message::Vim(a))
}

/// The bindings `a` then `b`.
fn pair(a: Binding, b: Binding) -> (v: Vec<Binding>)
    ensures
        v@ == seq![a, b],
{
    let mut v: Vec<Binding> = Vec::new();
    v.push(a);
    v.push(b);
    v
}

/// The binding `a` alone.
fn single(a: Binding) -> (v: Vec<Binding>)
    ensures
        v@ == seq![a],
{
    let mut v: Vec<Binding> = Vec::new();
    v.push(a);
    v
}

/// The bindings `a`, `b` then `c`.
fn triple(a: Binding, b: Binding, c: Binding) -> (v: Vec<Binding>)
    ensures
        v@ == seq![a, b, c],
{
    let mut v = pair(a, b);
    v.push(c);
    v
}

/// An empty sequence, which consumes the key.
fn consume() -> (r: Option<Binding>)
    ensures
        answers(r, consumed()),
{
    let v: Vec<Binding> = Vec::new();
    Some(Binding::Sequence(v))
}

/// Switches to Insert mode after the bindings `before`.
fn enter_insert(vim: &mut VimState, before: Vec<Binding>) -> (r: Option<Binding>)
    ensures
        *final(vim) == insert_after(*old(vim), before@).0,
        answers(r, insert_after(*old(vim), before@).1),
{
    vim.reset_operator_and_count();
    vim.mode = VimMode::Insert;
    let mut steps = before;
    steps.push(set_mode(VimMode::Insert));
    Some(Binding::Sequence(steps))
}

fn handle_normal_letter(vim: &mut VimState, c: Option<char>, shift: bool) -> (r: Option<Binding>)
    ensures
        *final(vim) == normal_letter(*old(vim), c, shift).0,
        answers(r, normal_letter(*old(vim), c, shift).1),
{
    let ch = match c {
        Some(ch) => ch,
        None => {
            vim.reset_operator_and_count();
            return consume();
        },
    };
    if let Some(m) = letter_motion_of(ch) {
        return repeat_motion(vim, m);
    }
    if ch == '0' || ch == '^' {
        vim.count_prefix = None;
        Some(Binding::Move(Motion::Home))
    } else if ch == '$' {
        vim.count_prefix = None;
        Some(Binding::Move(Motion::End))
    } else if ch == 'g' {
        vim.pending_operator = Some(VimPendingOperator::G);
        consume()
    } else if ch == 'G' && shift {
        vim.count_prefix = None;
        Some(vim_action(VimAction::GoToBottom))
    } else if ch == 'i' {
        vim.reset_operator_and_count();
        vim.mode = VimMode::Insert;
        Some(set_mode(VimMode::Insert))
    } else if ch == 'I' && shift {
        enter_insert(vim, single(Binding::Move(Motion::Home)))
    } else if ch == 'a' {
        enter_insert(vim, single(Binding::Move(Motion::Right)))
    } else if ch == 'A' && shift {
        enter_insert(vim, single(Binding::Move(Motion::End)))
    } else if ch == 'o' {
        enter_insert(vim, pair(Binding::Move(Motion::End), Binding::Enter))
    } else if ch == 'O' && shift {
        enter_insert(
            vim,
            triple(Binding::Move(Motion::Home), Binding::Enter, Binding::Move(Motion::Up)),
        )
    } else if ch == 'v' {
        vim.reset_operator_and_count();
        vim.mode = VimMode::Visual;
        Some(set_mode(VimMode::Visual))
    } else if ch == 'V' && shift {
        vim.reset_operator_and_count();
        vim.mode = VimMode::VisualLine;
        Some(Binding::Sequence(pair(Binding::SelectLine, set_mode(VimMode::VisualLine))))
    } else if ch == 'y' {
        vim.pending_operator = Some(VimPendingOperator::Y);
        consume()
    } else if ch == 'Y' && shift {
        vim.reset_operator_and_count();
        Some(vim_action(VimAction::YankLine))
    } else if ch == 'd' {
        vim.pending_operator = Some(VimPendingOperator::D);
        consume()
    } else if ch == 'D' && shift {
        vim.reset_operator_and_count();
        Some(Binding::Sequence(pair(Binding::Select(Motion::End), Binding::Delete)))
    } else if ch == 'p' {
        vim.reset_operator_and_count();
        Some(vim_action(VimAction::Paste { before: false }))
    } else if ch == 'P' && shift {
        vim.reset_operator_and_count();
        Some(vim_action(VimAction::Paste { before: true }))
    } else if ch == 'x' {
        vim.reset_operator_and_count();
        Some(Binding::Delete)
    } else if ch == 'X' && shift {
        vim.reset_operator_and_count();
        Some(Binding::Backspace)
    } else if ch == 'u' {
        vim.reset_operator_and_count();
        Some(Binding::Custom(Message::Undo))
    } else {
        // Any other character key is consumed, so no letter is inserted in Normal mode.
        vim.reset_operator_and_count();
        consume()
    }
}

/// Normal mode, after a pending operator was dealt with.
fn handle_normal_keys(vim: &mut VimState, key_press: &KeyPress) -> (r: Option<Binding>)
    requires
        !key_press.modifiers.control && !key_press.modifiers.command ==> (count_digit(
            *old(vim),
            *key_press,
        ) matches Some(d) ==> extended_count(*old(vim), d) <= usize::MAX),
    ensures
        *final(vim) == normal_keys(*old(vim), *key_press).0,
        answers(r, normal_keys(*old(vim), *key_press).1),
{
    let m = key_press.modifiers;
    // Control shortcuts
    if m.control {
        if let Some(page) = control_page_of(key_press.latin) {
            return repeat_motion(vim, page);
        }
        if is_char(key_press.latin, 'r') {
            return Some(Binding::Custom(Message::Redo));
        }
        return None;
    }
    // System Command shortcuts (save, copy, paste, ...) pass through.
    if m.command {
        return None;
    }
    // Digits build the count prefix (e.g. 5j, 10w).
    if let Some(digit) = count_digit_of(vim, key_press) {
        push_count_digit(vim, digit);
        return consume();
    }
    if let Some(motion) = named_motion_of(&key_press.modified_key) {
        return repeat_motion(vim, motion);
    }
    if matches!(key_press.modified_key, Key::Named(NamedKey::Tab)) {
        return consume();
    }
    if m.control || m.alt || m.command {
        return None;
    }
    handle_normal_letter(vim, key_press.latin, m.shift)
}

/// Normal mode.
fn handle_normal_mode(vim: &mut VimState, key_press: &KeyPress) -> (r: Option<Binding>)
    requires
        old(vim).mode == VimMode::Normal,
        is_focused(*key_press),
        !is_escape(*key_press),
        count_fits(*old(vim), *key_press),
    ensures
        *final(vim) == normal_step(*old(vim), *key_press).0,
        answers(r, normal_step(*old(vim), *key_press).1),
{
    // A pending operator is completed by its own key and dropped otherwise.
    if let Some(pending) = vim.pending_operator {
        vim.pending_operator = None;
        let (key, action) = match pending {
            VimPendingOperator::G => ('g', VimAction::GoToTop),
            VimPendingOperator::Y => ('y', VimAction::YankLine),
            VimPendingOperator::D => ('d', VimAction::DeleteLine),
        };
        if is_char(key_press.latin, key) {
            vim.count_prefix = None;
            return Some(vim_action(action));
        }
    }
    handle_normal_keys(vim, key_press)
}

fn handle_visual_letter(vim: &mut VimState, c: Option<char>, shift: bool, is_line: bool) -> (r:
    Option<Binding>)
    ensures
        *final(vim) == visual_letter(*old(vim), c, shift, is_line).0,
        answers(r, visual_letter(*old(vim), c, shift, is_line).1),
{
    let ch = match c {
        Some(ch) => ch,
        None => {
            vim.reset_operator_and_count();
            return consume();
        },
    };
    if let Some(m) = letter_motion_of(ch) {
        return repeat_select(vim, m);
    }
    if ch == '0' || ch == '^' {
        vim.count_prefix = None;
        Some(Binding::Select(Motion::Home))
    } else if ch == '$' {
        vim.count_prefix = None;
        Some(Binding::Select(Motion::End))
    } else if ch == 'g' {
        vim.count_prefix = None;
        Some(vim_action(VimAction::VisualGoToTop))
    } else if ch == 'G' && shift {
        vim.count_prefix = None;
        Some(vim_action(VimAction::VisualGoToBottom))
    } else if ch == 'y' || ch == 'Y' {
        vim.reset_operator_and_count();
        vim.mode = VimMode::Normal;
        vim.last_yank_is_line = is_line;
        Some(Binding::Sequence(pair(Binding::Copy, set_mode(VimMode::Normal))))
    } else if ch == 'd' || ch == 'D' || ch == 'x' || ch == 'X' {
        vim.reset_operator_and_count();
        vim.mode = VimMode::Normal;
        Some(Binding::Sequence(pair(Binding::Delete, set_mode(VimMode::Normal))))
    } else if ch == 'p' || ch == 'P' {
        vim.reset_operator_and_count();
        vim.mode = VimMode::Normal;
        Some(Binding::Sequence(pair(Binding::Paste, set_mode(VimMode::Normal))))
    } else if ch == 'v' || ch == 'V' {
        vim.reset_operator_and_count();
        vim.mode = VimMode::Normal;
        Some(vim_action(VimAction::Escape))
    } else {
        // Any other character key is consumed, so no letter is inserted in Visual mode.
        vim.reset_operator_and_count();
        consume()
    }
}

/// Visual mode (`is_line`: line-wise Visual mode).
fn handle_visual_mode(vim: &mut VimState, key_press: &KeyPress, is_line: bool) -> (r: Option<
    Binding,
>)
    requires
        !key_press.modifiers.control && !key_press.modifiers.command ==> (count_digit(
            *old(vim),
            *key_press,
        ) matches Some(d) ==> extended_count(*old(vim), d) <= usize::MAX),
    ensures
        *final(vim) == visual_step(*old(vim), *key_press, is_line).0,
        answers(r, visual_step(*old(vim), *key_press, is_line).1),
{
    let m = key_press.modifiers;
    if m.control {
        if let Some(page) = control_page_of(key_press.latin) {
            return repeat_select(vim, page);
        }
        return None;
    }
    if m.command {
        return None;
    }
    if let Some(digit) = count_digit_of(vim, key_press) {
        push_count_digit(vim, digit);
        return consume();
    }
    if let Some(motion) = named_motion_of(&key_press.modified_key) {
        return repeat_select(vim, motion);
    }
    if matches!(key_press.modified_key, Key::Named(NamedKey::Tab)) {
        return consume();
    }
    if m.control || m.alt || m.command {
        return None;
    }
    handle_visual_letter(vim, key_press.latin, m.shift, is_line)
}

/// Whether key press `key_press` keeps the count prefix of `vim` within
/// `usize` (see [`count_fits`]): callers test it before
/// [`handle_vim_key_press`].
pub fn count_stays_in_range(vim: &VimState, key_press: &KeyPress) -> (b: bool)
    ensures
        b == count_fits(*vim, *key_press),
{
    let focused = matches!(key_press.status, Status::Focused { .. });
    let escape = matches!(key_press.modified_key, Key::Named(NamedKey::Escape))
        || (key_press.modifiers.control && is_char(key_press.latin, '['));
    if !focused || escape || key_press.modifiers.control || key_press.modifiers.command {
        return true;
    }
    let completes = match vim.mode {
        VimMode::Insert => return true,
        VimMode::Normal => match vim.pending_operator {
            Some(VimPendingOperator::G) => is_char(key_press.latin, 'g'),
            Some(VimPendingOperator::Y) => is_char(key_press.latin, 'y'),
            Some(VimPendingOperator::D) => is_char(key_press.latin, 'd'),
            None => false,
        },
        _ => false,
    };
    if completes {
        return true;
    }
    match count_digit_of(vim, key_press) {
        Some(d) => match vim.count_prefix {
            Some(n) => n <= (usize::MAX - d) / 10,
            None => true,
        },
        None => true,
    }
}

/// Translates a key press in Vim mode into a text-editor binding, updating
/// the Vim state. `None` lets the text editor apply its own binding.
///
/// The count prefix is a `usize`: a digit that would take it past
/// `usize::MAX` is outside the contract.
pub fn handle_vim_key_press(vim: &mut VimState, key_press: &KeyPress) -> (r: Option<Binding>)
    requires
        count_fits(*old(vim), *key_press),
    ensures
        *final(vim) == step(*old(vim), *key_press).0,
        answers(r, step(*old(vim), *key_press).1),
{
    if !matches!(key_press.status, Status::Focused { .. }) {
        return None;
    }
    // Escape is always intercepted, so the editor keeps the focus and returns to Normal mode.
    let escape = matches!(key_press.modified_key, Key::Named(NamedKey::Escape))
        || (key_press.modifiers.control && is_char(key_press.latin, '['));
    if escape {
        vim.reset_operator_and_count();
        let was_insert = vim.mode == VimMode::Insert;
        vim.mode = VimMode::Normal;
        return if was_insert {
            Some(
                Binding::Sequence(
                    pair(Binding::Move(Motion::Left), vim_action(VimAction::Escape)),
                ),
            )
        } else {
            Some(vim_action(VimAction::Escape))
        };
    }
    match vim.mode {
        // Insert mode passes every key through to the text editor.
        VimMode::Insert => None,
        VimMode::Normal => handle_normal_mode(vim, key_press),
        VimMode::Visual => handle_visual_mode(vim, key_press, false),
        VimMode::VisualLine => handle_visual_mode(vim, key_press, true),
    }
}

} // verus!
