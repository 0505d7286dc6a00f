use hemi::keyboard::InputKey;
use hemi::keyboard::KeyboardState;
use hemi::keyboard::Layout;
use hemi::words::WordSource;

fn flat(state: &KeyboardState) -> Vec<InputKey> {
    state.rows().iter().flatten().copied().collect()
}

#[test]
fn new_keyboard_matches_rows_plus_space_bar() {
    let state = KeyboardState::new("AB C");
    let rows = state.rows();
    assert_eq!(rows.len(), 3, "two layout rows plus the space-bar row");
    let chars: Vec<Vec<char>> = rows
        .iter()
        .map(|row| row.iter().map(|k| k.character).collect())
        .collect();
    assert_eq!(chars, vec![vec!['A', 'B'], vec!['C'], vec![' ']]);
    for key in flat(&state) {
        assert!(!key.held);
        assert!(!key.just_pressed);
    }
}

#[test]
fn set_down_then_up_restores_the_keyboard() {
    let mut state = KeyboardState::new("AB C");
    state.set_down('a', true);
    let held: Vec<char> = flat(&state).iter().filter(|k| k.held).map(|k| k.character).collect();
    assert_eq!(held, vec!['A'], "lower-case identifiers reach the upper-case key");

    state.set_down('a', false);
    assert!(flat(&state).iter().all(|k| !k.held && !k.just_pressed));
}

#[test]
fn set_down_ignores_unmapped_identifiers() {
    let mut state = KeyboardState::new("AB C");
    state.set_down('z', true);
    assert!(flat(&state).iter().all(|k| !k.held));
}

#[test]
fn set_pressed_edge_tracks_only_the_edge_flag() {
    let mut state = KeyboardState::new("AB C");
    state.set_pressed_edge('B', true);
    let pressed: Vec<char> = flat(&state)
        .iter()
        .filter(|k| k.just_pressed)
        .map(|k| k.character)
        .collect();
    assert_eq!(pressed, vec!['B']);
    assert!(flat(&state).iter().all(|k| !k.held));
    state.set_pressed_edge('b', false);
    assert!(flat(&state).iter().all(|k| !k.just_pressed));
}

#[test]
fn space_bar_row_reacts_to_the_space_identifier() {
    let mut state = KeyboardState::new("AB");
    state.set_down(' ', true);
    let held: Vec<char> = flat(&state).iter().filter(|k| k.held).map(|k| k.character).collect();
    assert_eq!(held, vec![' ']);
}

#[test]
fn layout_splits_its_key_rows() {
    let layout = Layout::new("QWERT ASDFG", WordSource::key_based("QWERT ASDFG"));
    assert_eq!(
        layout.rows,
        vec![
            "QWERT".chars().collect::<Vec<char>>(),
            "ASDFG".chars().collect::<Vec<char>>()
        ]
    );
}

#[test]
fn rebuild_resets_all_flags() {
    let mut state = KeyboardState::new("AB");
    state.set_down('A', true);
    let layout = Layout::new("CD", WordSource::key_based("CD"));
    state.rebuild(&layout);
    let chars: Vec<Vec<char>> = state
        .rows()
        .iter()
        .map(|row| row.iter().map(|k| k.character).collect())
        .collect();
    assert_eq!(chars, vec![vec!['C', 'D'], vec![' ']]);
    assert!(flat(&state).iter().all(|k| !k.held && !k.just_pressed));
}
