use cedilla::vim::count_stays_in_range;
use cedilla::editor::{Binding, Key, KeyPress, Message, Modifiers, Motion, NamedKey, Status, VimAction};
use cedilla::vim::{handle_vim_key_press, VimMode, VimPendingOperator, VimState};

/// A key press whose physical key is unknown: the toolkit then reports a
/// Latin character only for a single character key below U+0370.
fn make_key_press(key: Key, modifiers: Modifiers) -> KeyPress {
    let latin = match &key {
        Key::Character(s) => {
            let mut chars = s.chars();
            match (chars.next(), chars.next()) {
                (Some(c), None) if c < '\u{370}' => Some(c),
                _ => None,
            }
        }
        _ => None,
    };
    KeyPress {
        key: key.clone(),
        modified_key: key,
        latin,
        modifiers,
        status: Status::Focused { is_hovered: true },
    }
}

fn char_key(c: &str) -> KeyPress {
    make_key_press(Key::Character(c.into()), Modifiers::default())
}

fn shifted(c: &str) -> KeyPress {
    make_key_press(
        Key::Character(c.into()),
        Modifiers { shift: true, ..Modifiers::default() },
    )
}

fn ctrl(c: &str) -> KeyPress {
    make_key_press(
        Key::Character(c.into()),
        Modifiers { control: true, command: true, ..Modifiers::default() },
    )
}

fn named(n: NamedKey) -> KeyPress {
    make_key_press(Key::Named(n), Modifiers::default())
}

fn is_empty_sequence(b: &Option<Binding>) -> bool {
    matches!(b, Some(Binding::Sequence(seq)) if seq.is_empty())
}

#[test]
fn test_normal_mode_motions() {
    let mut vim = VimState::default();
    let kp = make_key_press(Key::Character("j".into()), Modifiers::default());
    let res = handle_vim_key_press(&mut vim, &kp);
    assert!(matches!(res, Some(Binding::Move(Motion::Down))));
}

#[test]
fn test_count_prefix_motion() {
    let mut vim = VimState::default();
    let kp5 = make_key_press(Key::Character("5".into()), Modifiers::default());
    let _ = handle_vim_key_press(&mut vim, &kp5);
    assert_eq!(vim.count_prefix, Some(5));

    let kpj = make_key_press(Key::Character("j".into()), Modifiers::default());
    let res = handle_vim_key_press(&mut vim, &kpj);
    if let Some(Binding::Sequence(seq)) = res {
        assert_eq!(seq.len(), 5);
        assert!(matches!(seq[0], Binding::Move(Motion::Down)));
    } else {
        panic!("Expected sequence of 5 moves");
    }
    assert_eq!(vim.count_prefix, None);
}

#[test]
fn test_mode_transitions() {
    let mut vim = VimState::default();
    let kpi = make_key_press(Key::Character("i".into()), Modifiers::default());
    let _ = handle_vim_key_press(&mut vim, &kpi);
    assert_eq!(vim.mode, VimMode::Insert);

    let kpesc = make_key_press(Key::Named(NamedKey::Escape), Modifiers::default());
    let _ = handle_vim_key_press(&mut vim, &kpesc);
    assert_eq!(vim.mode, VimMode::Normal);
}

#[test]
fn test_visual_mode_yank() {
    let mut vim = VimState::default();
    vim.mode = VimMode::Visual;
    let kpy = make_key_press(Key::Character("y".into()), Modifiers::default());
    let res = handle_vim_key_press(&mut vim, &kpy);
    assert_eq!(vim.mode, VimMode::Normal);
    assert!(matches!(res, Some(Binding::Sequence(_))));
}

#[test]
fn test_normal_mode_dd_deletes_line() {
    let mut vim = VimState::default();
    let kpd = make_key_press(Key::Character("d".into()), Modifiers::default());
    let res1 = handle_vim_key_press(&mut vim, &kpd);
    assert!(matches!(res1, Some(Binding::Sequence(seq)) if seq.is_empty()));
    assert_eq!(vim.pending_operator, Some(VimPendingOperator::D));

    let res2 = handle_vim_key_press(&mut vim, &kpd);
    assert!(matches!(res2, Some(Binding::Custom(Message::Vim(VimAction::DeleteLine)))));
    assert_eq!(vim.pending_operator, None);
}

#[test]
fn test_normal_mode_unhandled_letters_consumed() {
    let mut vim = VimState::default();
    let kpz = make_key_press(Key::Character("z".into()), Modifiers::default());
    let res = handle_vim_key_press(&mut vim, &kpz);
    // Unhandled letters must return an empty sequence to consume the key without inserting text
    assert!(matches!(res, Some(Binding::Sequence(seq)) if seq.is_empty()));
}

#[test]
fn test_visual_mode_delete() {
    let mut vim = VimState::default();
    vim.mode = VimMode::Visual;
    let kpd = make_key_press(Key::Character("d".into()), Modifiers::default());
    let res = handle_vim_key_press(&mut vim, &kpd);
    assert_eq!(vim.mode, VimMode::Normal);
    assert!(matches!(res, Some(Binding::Sequence(_))));
}

#[test]
fn mode_labels() {
    assert_eq!(VimMode::Normal.label(), "-- NORMAL --");
    assert_eq!(VimMode::Insert.label(), "-- INSERT --");
    assert_eq!(VimMode::Visual.label(), "-- VISUAL --");
    assert_eq!(VimMode::VisualLine.label(), "-- VISUAL LINE --");
    assert_eq!(VimMode::default(), VimMode::Normal);
}

#[test]
fn reset_forgets_operator_and_count_only() {
    let mut vim = VimState {
        mode: VimMode::Visual,
        count_prefix: Some(3),
        pending_operator: Some(VimPendingOperator::G),
        last_yank_is_line: true,
    };
    vim.reset_operator_and_count();
    assert_eq!(
        vim,
        VimState {
            mode: VimMode::Visual,
            count_prefix: None,
            pending_operator: None,
            last_yank_is_line: true,
        }
    );
}

#[test]
fn unfocused_key_is_left_alone() {
    let mut vim = VimState::default();
    let mut kp = char_key("j");
    kp.status = Status::Active;
    assert!(handle_vim_key_press(&mut vim, &kp).is_none());
    assert_eq!(vim, VimState::default());
}

#[test]
fn escape_leaves_insert_with_a_step_left() {
    let mut vim = VimState::default();
    vim.mode = VimMode::Insert;
    let res = handle_vim_key_press(&mut vim, &named(NamedKey::Escape));
    match res {
        Some(Binding::Sequence(seq)) => {
            assert_eq!(seq.len(), 2);
            assert!(matches!(seq[0], Binding::Move(Motion::Left)));
            assert!(matches!(seq[1], Binding::Custom(Message::Vim(VimAction::Escape))));
        }
        _ => panic!("expected a move left and an escape"),
    }
    assert_eq!(vim.mode, VimMode::Normal);
}

#[test]
fn control_bracket_escapes_visual_mode() {
    let mut vim = VimState {
        mode: VimMode::VisualLine,
        count_prefix: Some(4),
        pending_operator: None,
        last_yank_is_line: false,
    };
    let res = handle_vim_key_press(&mut vim, &ctrl("["));
    assert!(matches!(res, Some(Binding::Custom(Message::Vim(VimAction::Escape)))));
    assert_eq!(vim.mode, VimMode::Normal);
    assert_eq!(vim.count_prefix, None);
}

#[test]
fn insert_mode_passes_letters_through() {
    let mut vim = VimState::default();
    vim.mode = VimMode::Insert;
    assert!(handle_vim_key_press(&mut vim, &char_key("x")).is_none());
    assert_eq!(vim.mode, VimMode::Insert);
}

#[test]
fn count_of_two_digits_and_zero() {
    let mut vim = VimState::default();
    // A leading zero is a motion, not a count.
    let res = handle_vim_key_press(&mut vim, &char_key("0"));
    assert!(matches!(res, Some(Binding::Move(Motion::Home))));
    assert_eq!(vim.count_prefix, None);
    let _ = handle_vim_key_press(&mut vim, &char_key("1"));
    let _ = handle_vim_key_press(&mut vim, &char_key("0"));
    assert_eq!(vim.count_prefix, Some(10));
    let res = handle_vim_key_press(&mut vim, &char_key("w"));
    match res {
        Some(Binding::Sequence(seq)) => {
            assert_eq!(seq.len(), 10);
            assert!(seq.iter().all(|b| matches!(b, Binding::Move(Motion::WordRight))));
        }
        _ => panic!("expected ten word motions"),
    }
}

#[test]
fn count_of_one_is_a_single_motion() {
    let mut vim = VimState::default();
    let _ = handle_vim_key_press(&mut vim, &char_key("1"));
    let res = handle_vim_key_press(&mut vim, &named(NamedKey::ArrowUp));
    assert!(matches!(res, Some(Binding::Move(Motion::Up))));
}

#[test]
fn gg_and_yy_complete_their_operators() {
    let mut vim = VimState::default();
    assert!(is_empty_sequence(&handle_vim_key_press(&mut vim, &char_key("g"))));
    let res = handle_vim_key_press(&mut vim, &char_key("g"));
    assert!(matches!(res, Some(Binding::Custom(Message::Vim(VimAction::GoToTop)))));
    assert!(is_empty_sequence(&handle_vim_key_press(&mut vim, &char_key("y"))));
    let res = handle_vim_key_press(&mut vim, &char_key("y"));
    assert!(matches!(res, Some(Binding::Custom(Message::Vim(VimAction::YankLine)))));
    assert_eq!(vim.pending_operator, None);
}

#[test]
fn pending_operator_dropped_by_other_key() {
    let mut vim = VimState::default();
    let _ = handle_vim_key_press(&mut vim, &char_key("d"));
    let res = handle_vim_key_press(&mut vim, &char_key("j"));
    assert!(matches!(res, Some(Binding::Move(Motion::Down))));
    assert_eq!(vim.pending_operator, None);
}

#[test]
fn shifted_letters_switch_modes_and_announce_them() {
    let mut vim = VimState::default();
    let res = handle_vim_key_press(&mut vim, &shifted("V"));
    match res {
        Some(Binding::Sequence(seq)) => {
            assert!(matches!(seq[0], Binding::SelectLine));
            assert!(matches!(
                seq[1],
                Binding::Custom(Message::Vim(VimAction::SetMode(VimMode::VisualLine)))
            ));
        }
        _ => panic!("expected a line selection"),
    }
    assert_eq!(vim.mode, VimMode::VisualLine);
    let res = handle_vim_key_press(&mut vim, &char_key("y"));
    assert!(res.is_some());
    assert!(vim.last_yank_is_line);
    assert_eq!(vim.mode, VimMode::Normal);

    let res = handle_vim_key_press(&mut vim, &shifted("O"));
    match res {
        Some(Binding::Sequence(seq)) => {
            assert_eq!(seq.len(), 4);
            assert!(matches!(seq[0], Binding::Move(Motion::Home)));
            assert!(matches!(seq[1], Binding::Enter));
            assert!(matches!(seq[2], Binding::Move(Motion::Up)));
        }
        _ => panic!("expected a line opened above"),
    }
    assert_eq!(vim.mode, VimMode::Insert);
}

#[test]
fn unshifted_capital_is_consumed() {
    let mut vim = VimState::default();
    let res = handle_vim_key_press(&mut vim, &char_key("G"));
    assert!(is_empty_sequence(&res));
    let res = handle_vim_key_press(&mut vim, &shifted("G"));
    assert!(matches!(res, Some(Binding::Custom(Message::Vim(VimAction::GoToBottom)))));
}

#[test]
fn control_keys_in_normal_and_visual_mode() {
    let mut vim = VimState::default();
    assert!(matches!(
        handle_vim_key_press(&mut vim, &ctrl("r")),
        Some(Binding::Custom(Message::Redo))
    ));
    assert!(matches!(
        handle_vim_key_press(&mut vim, &ctrl("f")),
        Some(Binding::Move(Motion::PageDown))
    ));
    assert!(handle_vim_key_press(&mut vim, &ctrl("s")).is_none());
    vim.mode = VimMode::Visual;
    assert!(matches!(
        handle_vim_key_press(&mut vim, &ctrl("u")),
        Some(Binding::Select(Motion::PageUp))
    ));
    assert!(handle_vim_key_press(&mut vim, &ctrl("r")).is_none());
}

#[test]
fn visual_mode_selects_and_pastes() {
    let mut vim = VimState { mode: VimMode::Visual, ..VimState::default() };
    let _ = handle_vim_key_press(&mut vim, &char_key("3"));
    match handle_vim_key_press(&mut vim, &char_key("l")) {
        Some(Binding::Sequence(seq)) => {
            assert_eq!(seq.len(), 3);
            assert!(matches!(seq[2], Binding::Select(Motion::Right)));
        }
        _ => panic!("expected three selections"),
    }
    let res = handle_vim_key_press(&mut vim, &char_key("p"));
    match res {
        Some(Binding::Sequence(seq)) => {
            assert!(matches!(seq[0], Binding::Paste));
            assert!(matches!(
                seq[1],
                Binding::Custom(Message::Vim(VimAction::SetMode(VimMode::Normal)))
            ));
        }
        _ => panic!("expected a paste"),
    }
    assert_eq!(vim.mode, VimMode::Normal);
    assert!(!vim.last_yank_is_line);
}

#[test]
fn tab_is_consumed_and_alt_passes() {
    let mut vim = VimState::default();
    assert!(is_empty_sequence(&handle_vim_key_press(&mut vim, &named(NamedKey::Tab))));
    let alt = make_key_press(
        Key::Character("x".into()),
        Modifiers { alt: true, ..Modifiers::default() },
    );
    assert!(handle_vim_key_press(&mut vim, &alt).is_none());
}

#[test]
fn widen_motions() {
    assert_eq!(Motion::Left.widen(), Motion::WordLeft);
    assert_eq!(Motion::Right.widen(), Motion::WordRight);
    assert_eq!(Motion::Home.widen(), Motion::DocumentStart);
    assert_eq!(Motion::End.widen(), Motion::DocumentEnd);
    assert_eq!(Motion::Up.widen(), Motion::Up);
}

#[test]
fn count_range_is_checked_before_a_digit() {
    let big = VimState { count_prefix: Some(usize::MAX / 10), ..VimState::default() };
    assert!(!count_stays_in_range(&big, &char_key("9")));
    assert!(count_stays_in_range(&big, &char_key("j")));
    let small = VimState { count_prefix: Some(12), ..VimState::default() };
    assert!(count_stays_in_range(&small, &char_key("9")));
    let insert = VimState { mode: VimMode::Insert, ..big };
    assert!(count_stays_in_range(&insert, &char_key("9")));
}

#[test]
fn escape_twice_is_escape_once() {
    let mut vim = VimState { mode: VimMode::Visual, count_prefix: Some(2), ..VimState::default() };
    let _ = handle_vim_key_press(&mut vim, &named(NamedKey::Escape));
    let once = vim;
    let res = handle_vim_key_press(&mut vim, &named(NamedKey::Escape));
    assert_eq!(vim, once);
    assert!(matches!(res, Some(Binding::Custom(Message::Vim(VimAction::Escape)))));
}

#[test]
fn command_shortcut_passes_through() {
    let mut vim = VimState::default();
    let save = make_key_press(
        Key::Character("s".into()),
        Modifiers { command: true, ..Modifiers::default() },
    );
    assert!(handle_vim_key_press(&mut vim, &save).is_none());
    assert_eq!(vim, VimState::default());
}
