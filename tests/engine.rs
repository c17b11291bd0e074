use helix_mode::{
    move_char_left, move_char_right, move_next_word_start, move_prev_word_start,
    move_visual_line_down, move_visual_line_up, CountPolicy, Cursor, Direction, HelixAction,
    HelixBuffer, HelixMachine, MotionSpec, TargetShape, ESC,
};

fn buffer(text: &str, start: Cursor) -> HelixBuffer {
    HelixBuffer::new(text.chars().collect(), start)
}

fn normal_machine() -> HelixMachine {
    let mut machine = HelixMachine::empty();
    machine.input_key(ESC);
    let _ = machine.pop();
    machine
}

fn press(machine: &mut HelixMachine, key: char) -> HelixAction {
    machine.input_key(key);
    machine.pop().unwrap()
}

#[test]
fn hx_test_cursor_always_has_selection() {
    let tb = buffer("hello\n", Cursor::new(0, 2));
    assert_eq!(
        tb.selection(),
        Some((Cursor::new(0, 2), Cursor::new(0, 2), TargetShape::CharWise))
    );
}

#[test]
fn mod_test_cursor_always_has_selection() {
    let tb = buffer("hello\n", Cursor::new(0, 2));
    assert_eq!(
        tb.selection(),
        Some((Cursor::new(0, 2), Cursor::new(0, 2), TargetShape::CharWise))
    );
}

#[test]
fn move_char_left_and_right() {
    for (key, expected, end) in [
        ('h', HelixAction::Motion(move_char_left()), Cursor::new(0, 1)),
        ('l', HelixAction::Motion(move_char_right()), Cursor::new(0, 3)),
    ] {
        let mut machine = normal_machine();
        let action = press(&mut machine, key);
        assert_eq!(action, expected);
        let mut tb = buffer("hello\n", Cursor::new(0, 2));
        tb.apply_motion(&action);
        assert_eq!(tb.leader(), end);
    }
}

#[test]
fn move_line_down_and_up() {
    for (key, expected, end) in [
        ('j', HelixAction::Motion(move_visual_line_down()), Cursor::new(2, 2)),
        ('k', HelixAction::Motion(move_visual_line_up()), Cursor::new(0, 2)),
    ] {
        let mut machine = normal_machine();
        let action = press(&mut machine, key);
        assert_eq!(action, expected);
        let mut tb = buffer("hello\nworld\nfoo\n", Cursor::new(1, 2));
        tb.apply_motion(&action);
        assert_eq!(tb.leader(), end);
    }
}

#[test]
fn move_next_word_start_lands_on_last_whitespace() {
    let mut machine = normal_machine();
    let action = press(&mut machine, 'w');
    let mut tb = buffer("one  two\n", Cursor::new(0, 0));
    tb.apply_motion(&action);
    assert_eq!(tb.leader(), Cursor::new(0, 4), "head should land on last whitespace");
}

#[test]
fn move_prev_word_start_lands_on_word_first_letter() {
    let mut machine = normal_machine();
    let action = press(&mut machine, 'b');
    assert_eq!(
        action,
        HelixAction::TraverseMotion(move_prev_word_start(), Direction::Previous)
    );
    let mut tb = buffer("one  two\n", Cursor::new(0, 7));
    tb.apply_motion(&action);
    assert_eq!(tb.leader(), Cursor::new(0, 5), "head should land on word start");
}

#[test]
fn b_resets_anchor_to_last_whitespace() {
    let mut machine = normal_machine();
    let action = press(&mut machine, 'b');
    let mut tb = buffer("one  two\n", Cursor::new(0, 5));
    tb.apply_motion(&action);
    assert_eq!(tb.anchor(), Cursor::new(0, 4), "anchor should reset to last whitespace");
    assert_eq!(tb.leader(), Cursor::new(0, 0), "head should land on previous word");
}

#[test]
fn w_resets_anchor_to_first_letter() {
    let mut machine = normal_machine();
    let action = press(&mut machine, 'w');
    let mut tb = buffer("one  two  end\n", Cursor::new(0, 4));
    tb.apply_motion(&action);
    assert_eq!(tb.anchor(), Cursor::new(0, 5), "anchor should reset to first letter");
    assert_eq!(tb.leader(), Cursor::new(0, 9), "head should land on last whitespace");
}

#[test]
fn selection_survives_motion() {
    let mut machine = normal_machine();
    let action = press(&mut machine, 'l');
    let mut tb = buffer("hello\n", Cursor::new(0, 2));
    tb.apply_motion(&action);
    let sel = tb.selection().unwrap();
    assert_eq!(sel.0, Cursor::new(0, 2), "anchor should stay at start");
    assert_eq!(sel.1, Cursor::new(0, 3), "head should have moved");
    assert_eq!(sel.2, TargetShape::CharWise, "shape should remain CharWise");
}

#[test]
fn select_mode_anchor_fixed() {
    let cases: [(&str, Cursor, [char; 2], [Cursor; 2]); 3] = [
        ("hello\n", Cursor::new(0, 1), ['l', 'l'], [Cursor::new(0, 2), Cursor::new(0, 3)]),
        ("hello\n", Cursor::new(0, 2), ['l', 'l'], [Cursor::new(0, 3), Cursor::new(0, 4)]),
        ("hello\nworld\n", Cursor::new(0, 2), ['j', 'l'], [Cursor::new(1, 2), Cursor::new(1, 3)]),
    ];
    for (text, start, keys, heads) in cases {
        let mut machine = normal_machine();
        machine.input_key('v');
        let _ = machine.pop();
        let mut tb = buffer(text, start);
        for (key, head) in keys.iter().zip(heads) {
            let action = press(&mut machine, *key);
            tb.apply_motion(&action);
            assert_eq!(tb.anchor(), start, "anchor should stay fixed");
            assert_eq!(tb.leader(), head, "head should have moved");
        }
    }
}

#[test]
fn motion_left_at_column_zero_stays() {
    let mut tb = buffer("hello\n", Cursor::new(0, 0));
    tb.apply_motion(&HelixAction::Motion(move_char_left()));
    assert_eq!(tb.leader(), Cursor::new(0, 0));
}

#[test]
fn start_outside_text_is_clamped() {
    let tb = buffer("ab\ncd", Cursor::new(0, 9));
    assert_eq!(tb.leader(), Cursor::new(0, 2));
    let tb = buffer("ab\ncd", Cursor::new(7, 1));
    assert_eq!(tb.leader(), Cursor::new(1, 2));
}

#[test]
fn typing_inserts_at_head_and_collapses() {
    let mut tb = buffer("hllo\n", Cursor::new(0, 1));
    tb.apply_motion(&HelixAction::Type('e'));
    assert_eq!(tb.text().iter().collect::<String>(), "hello\n");
    assert_eq!(tb.selection(), Some((Cursor::new(0, 2), Cursor::new(0, 2), TargetShape::CharWise)));
    tb.apply_motion(&HelixAction::Type('\n'));
    assert_eq!(tb.text().iter().collect::<String>(), "he\nllo\n");
    assert_eq!(tb.leader(), Cursor::new(1, 0));
    assert_eq!(tb.anchor(), Cursor::new(1, 0));
}

#[test]
fn noop_changes_nothing() {
    let mut tb = buffer("hello\n", Cursor::new(0, 3));
    tb.apply_motion(&HelixAction::NoOp);
    assert_eq!(tb.leader(), Cursor::new(0, 3));
    assert_eq!(tb.anchor(), Cursor::new(0, 3));
}

#[test]
fn exact_and_contextual_counts() {
    let mut tb = buffer("hello\n", Cursor::new(0, 0));
    let twice = MotionSpec { count: CountPolicy::Exact(2), ..move_char_right() };
    tb.apply_motion(&HelixAction::Motion(twice));
    assert_eq!(tb.leader(), Cursor::new(0, 2));
    tb.apply(&HelixAction::Motion(move_char_right()), Some(2));
    assert_eq!(tb.leader(), Cursor::new(0, 4));
    assert_eq!(tb.anchor(), Cursor::new(0, 0));
}

#[test]
fn char_traverse_uses_adjacent_cell() {
    let mut tb = buffer("hello\n", Cursor::new(0, 1));
    tb.apply_motion(&HelixAction::TraverseMotion(
        MotionSpec { count: CountPolicy::Exact(3), ..move_char_right() },
        Direction::Next,
    ));
    assert_eq!(tb.leader(), Cursor::new(0, 4));
    assert_eq!(tb.anchor(), Cursor::new(0, 2));
    let mut tb = buffer("hello\n", Cursor::new(0, 0));
    tb.apply_motion(&HelixAction::TraverseMotion(move_char_left(), Direction::Previous));
    assert_eq!(tb.anchor(), Cursor::new(0, 0));
}

#[test]
fn consecutive_word_traversals_do_not_overlap() {
    let mut machine = normal_machine();
    let mut tb = buffer("one  two  end\n", Cursor::new(0, 0));
    let w = press(&mut machine, 'w');
    tb.apply_motion(&w);
    let first_head = tb.leader();
    tb.apply_motion(&w);
    assert!(first_head < tb.anchor() && tb.anchor() < tb.leader());
    assert_eq!(tb.selection(), Some((Cursor::new(0, 5), Cursor::new(0, 9), TargetShape::CharWise)));
}

#[test]
fn any_action_sequence_keeps_a_selection() {
    let mut tb = buffer("ab cd\nef\n", Cursor::new(0, 0));
    let actions = [
        HelixAction::Motion(move_visual_line_down()),
        HelixAction::Type('x'),
        HelixAction::TraverseMotion(move_next_word_start(), Direction::Next),
        HelixAction::NoOp,
        HelixAction::TraverseMotion(move_prev_word_start(), Direction::Previous),
        HelixAction::Motion(move_char_left()),
        HelixAction::Motion(move_visual_line_up()),
        HelixAction::Motion(move_visual_line_up()),
        HelixAction::Type('\n'),
    ];
    for action in actions {
        tb.apply_motion(&action);
        assert!(tb.selection().is_some());
        let head = tb.leader();
        assert_eq!(helix_mode::clamp(tb.text(), head), head, "head stays on the text");
    }
}

#[test]
fn consecutive_backward_word_traversals_do_not_overlap() {
    let mut machine = normal_machine();
    let mut tb = buffer("one  two  end\n", Cursor::new(0, 10));
    let b = press(&mut machine, 'b');
    tb.apply_motion(&b);
    assert_eq!(tb.leader(), Cursor::new(0, 5));
    assert_eq!(tb.anchor(), Cursor::new(0, 9));
    let first_start = tb.selection().unwrap().0;
    tb.apply_motion(&b);
    assert_eq!(tb.leader(), Cursor::new(0, 0));
    assert_eq!(tb.anchor(), Cursor::new(0, 4));
    assert!(tb.selection().unwrap().1 < first_start);
}

#[test]
fn backward_word_traversal_inside_a_word_uses_adjacent_cell() {
    let mut tb = buffer("one  two\n", Cursor::new(0, 7));
    tb.apply_motion(&HelixAction::TraverseMotion(move_prev_word_start(), Direction::Previous));
    assert_eq!(tb.leader(), Cursor::new(0, 5));
    assert_eq!(tb.anchor(), Cursor::new(0, 6));
}

#[test]
fn positions_and_offsets() {
    let text: Vec<char> = "ab\ncd".chars().collect();
    assert_eq!(helix_mode::position_at(&text, 4), Cursor::new(1, 1));
    assert_eq!(helix_mode::position_at(&text, 5), Cursor::new(1, 2));
    assert_eq!(helix_mode::offset_of(&text, Cursor::new(1, 0)), Some(3));
    assert_eq!(helix_mode::offset_of(&text, Cursor::new(0, 3)), None);
}

#[test]
fn empty_text_keeps_head_at_origin() {
    let mut tb = buffer("", Cursor::new(3, 3));
    assert_eq!(tb.leader(), Cursor::new(0, 0));
    for action in [
        HelixAction::Motion(move_char_right()),
        HelixAction::Motion(move_visual_line_down()),
        HelixAction::TraverseMotion(move_next_word_start(), Direction::Next),
        HelixAction::TraverseMotion(move_prev_word_start(), Direction::Previous),
    ] {
        tb.apply_motion(&action);
        assert_eq!(tb.leader(), Cursor::new(0, 0));
    }
    assert_eq!(tb.text(), &vec!['\n']);
    tb.apply_motion(&HelixAction::Type('a'));
    assert_eq!(tb.text(), &vec!['a', '\n']);
    assert_eq!(tb.selection(), Some((Cursor::new(0, 1), Cursor::new(0, 1), TargetShape::CharWise)));
}

#[test]
fn missing_final_newline_is_added() {
    let tb = buffer("ab\ncd", Cursor::new(1, 1));
    assert_eq!(tb.text().iter().collect::<String>(), "ab\ncd\n");
    let tb = buffer("ab\n", Cursor::new(0, 0));
    assert_eq!(tb.text().iter().collect::<String>(), "ab\n");
}

#[test]
fn line_down_on_last_line_stays() {
    let mut tb = buffer("ab\ncd", Cursor::new(1, 1));
    tb.apply_motion(&HelixAction::Motion(move_visual_line_down()));
    assert_eq!(tb.leader(), Cursor::new(1, 1));
}

#[test]
fn line_motion_goes_to_end_of_shorter_line() {
    let mut tb = buffer("hello\nab\n", Cursor::new(0, 4));
    tb.apply_motion(&HelixAction::Motion(move_visual_line_down()));
    assert_eq!(tb.leader(), Cursor::new(1, 2));
}

#[test]
fn carriage_returns_and_other_breaks_end_lines() {
    let mut tb = buffer("a\rbcd\n", Cursor::new(1, 2));
    tb.apply_motion(&HelixAction::Motion(move_char_left()));
    assert_eq!(tb.leader(), Cursor::new(1, 1));
    let tb = buffer("a\r\nb\u{2028}c\n", Cursor::new(2, 0));
    assert_eq!(tb.leader(), Cursor::new(2, 0));
    assert_eq!(helix_mode::offset_of(tb.text(), Cursor::new(1, 0)), Some(3));
    assert_eq!(helix_mode::offset_of(tb.text(), Cursor::new(0, 2)), Some(2));
    assert_eq!(helix_mode::offset_of(tb.text(), Cursor::new(2, 0)), Some(5));
}

#[test]
fn column_step_stops_at_line_end() {
    let mut tb = buffer("ab\ncd\n", Cursor::new(0, 1));
    let far = MotionSpec { count: CountPolicy::Exact(usize::MAX), ..move_char_right() };
    tb.apply_motion(&HelixAction::Motion(far));
    assert_eq!(tb.leader(), Cursor::new(0, 2));
    let back = MotionSpec { count: CountPolicy::Exact(usize::MAX), ..move_char_left() };
    tb.apply_motion(&HelixAction::Motion(back));
    assert_eq!(tb.leader(), Cursor::new(0, 0));
}
