use helix_mode::{
    append_mode, binding, bindings, insert_mode, move_char_left, move_char_right,
    move_next_word_start, move_prev_word_start, move_visual_line_down, move_visual_line_up,
    resolve, Direction, HelixAction, HelixMachine, HelixMode, ESC,
};

fn normal_machine() -> HelixMachine {
    let mut machine = HelixMachine::empty();
    machine.input_key(ESC);
    let _ = machine.pop();
    machine
}

#[test]
fn hx_test_insert_mode_is_default() {
    assert_eq!(HelixMachine::empty().mode(), HelixMode::Insert);
}

#[test]
fn hx_test_escape_to_normal_mode() {
    let mut machine = HelixMachine::empty();
    machine.input_key(ESC);
    assert_eq!(machine.mode(), HelixMode::Normal);
}

#[test]
fn mod_test_insert_mode_is_default() {
    assert_eq!(HelixMachine::empty().mode(), HelixMode::Insert);
    assert_eq!(HelixMode::default(), HelixMode::Insert);
}

#[test]
fn mod_test_escape_to_normal_mode() {
    let mut machine = HelixMachine::empty();
    machine.input_key(ESC);
    assert_eq!(machine.mode(), HelixMode::Normal);
    // Leaving Insert produces no action of its own, and no key is left half-matched.
    assert_eq!(machine.pop(), Some(HelixAction::NoOp));
    assert_eq!(machine.pop(), None);
}

#[test]
fn normal_keys_resolve_to_motions() {
    let cases = [
        ('h', HelixAction::Motion(move_char_left())),
        ('l', HelixAction::Motion(move_char_right())),
        ('j', HelixAction::Motion(move_visual_line_down())),
        ('k', HelixAction::Motion(move_visual_line_up())),
        ('w', HelixAction::TraverseMotion(move_next_word_start(), Direction::Next)),
        ('b', HelixAction::TraverseMotion(move_prev_word_start(), Direction::Previous)),
    ];
    for (key, expected) in cases {
        let mut machine = normal_machine();
        machine.input_key(key);
        assert_eq!(machine.pop(), Some(expected));
        assert_eq!(machine.mode(), HelixMode::Normal);
    }
}

#[test]
fn v_toggles_select_mode() {
    let mut machine = normal_machine();
    machine.input_key('v');
    let _ = machine.pop();
    assert_eq!(machine.mode(), HelixMode::Select);
    machine.input_key('v');
    let _ = machine.pop();
    assert_eq!(machine.mode(), HelixMode::Normal);
}

#[test]
fn i_enters_insert_mode() {
    let mut machine = normal_machine();
    machine.input_key('i');
    assert_eq!(machine.pop(), Some(insert_mode().0.unwrap_or_default()));
    assert_eq!(machine.mode(), HelixMode::Insert);
}

#[test]
fn a_enters_insert_mode_after_moving_right() {
    let mut machine = normal_machine();
    machine.input_key('a');
    assert_eq!(machine.pop(), Some(HelixAction::Motion(move_char_right())));
    assert_eq!(machine.mode(), HelixMode::Insert);
    assert_eq!(append_mode().0, Some(HelixAction::Motion(move_char_right())));
}

#[test]
fn escape_in_normal_is_ignored() {
    let mut machine = normal_machine();
    machine.input_key(ESC);
    assert_eq!(machine.mode(), HelixMode::Normal);
    assert_eq!(machine.pop(), Some(HelixAction::NoOp));
    assert_eq!(resolve(HelixMode::Normal, ESC), (None, None));
}

#[test]
fn unbound_keys_type_in_insert_and_are_ignored_elsewhere() {
    assert_eq!(resolve(HelixMode::Insert, 'x'), (Some(HelixAction::Type('x')), None));
    assert_eq!(resolve(HelixMode::Insert, 'h'), (Some(HelixAction::Type('h')), None));
    assert_eq!(resolve(HelixMode::Normal, 'x'), (None, None));
    assert_eq!(resolve(HelixMode::Select, 'w'), (None, None));
    assert_eq!(HelixMode::Insert.unmapped(Some('q')), (vec![HelixAction::Type('q')], None));
    assert_eq!(HelixMode::Insert.unmapped(None), (vec![], None));
    assert_eq!(HelixMode::Select.unmapped(Some('q')), (vec![], None));
}

#[test]
fn no_insert_select_edge() {
    assert_eq!(binding(HelixMode::Insert, 'v'), None);
    assert_eq!(binding(HelixMode::Select, 'i'), None);
    assert_eq!(binding(HelixMode::Select, ESC), None);
}

#[test]
fn binding_list_matches_lookup() {
    let table = bindings();
    assert_eq!(table.len(), 15);
    for (mode, key, step) in table {
        assert_eq!(binding(mode, key), Some(step));
    }
}

#[test]
fn typed_keys_queue_in_order() {
    let mut machine = HelixMachine::empty();
    machine.input_key('a');
    machine.input_key('b');
    assert_eq!(machine.pop(), Some(HelixAction::Type('a')));
    assert_eq!(machine.pop(), Some(HelixAction::Type('b')));
    assert_eq!(machine.pop(), None);
    assert_eq!(machine.mode(), HelixMode::Insert);
}
