use hemi::app::parse_layout_name;
use hemi::app::App;
use hemi::app::ControlKey;
use hemi::app::KeyboardLayout;
use hemi::app::MainPanel;
use hemi::app::TypingSide;
use hemi::windows::AboutWindow;
use hemi::windows::MainWindow;
use hemi::words::LayoutDictionary;
use hemi::words::Layouts;

fn fresh_app() -> App {
    let dict = LayoutDictionary::default();
    App::new(&dict.left)
}

#[test]
fn a_new_app_starts_on_the_left_typing_panel() {
    let app = fresh_app();
    assert_eq!(app.panel, MainPanel::Typing);
    assert_eq!(app.side, TypingSide::Left);
    assert_eq!(app.layout, KeyboardLayout::Qwerty);
    assert!(app.settings.sound_enabled);
    assert!(app.settings.status_enabled);
    assert!(app.settings.keyboard_enabled);
    assert_eq!(app.typer.streak(), 0);
    assert_eq!(app.typer.input(), "");
    assert_eq!(app.keyboard.rows().len(), 4, "three QWERTY rows plus the space bar");
}

#[test]
fn toggles_flip_their_flag_and_nothing_else() {
    let mut app = fresh_app();
    app.toggle_sound();
    assert!(!app.settings.sound_enabled);
    assert!(app.settings.keyboard_enabled);
    app.toggle_sound();
    assert!(app.settings.sound_enabled);

    app.toggle_keyboard();
    assert!(!app.settings.keyboard_enabled);
    assert!(app.settings.sound_enabled);

    app.toggle_info();
    assert_eq!(app.panel, MainPanel::Info);
    app.toggle_info();
    assert_eq!(app.panel, MainPanel::Typing);
}

#[test]
fn flip_side_switches_hand_and_rebuilds() {
    let dict = LayoutDictionary::default();
    let mut app = App::new(&dict.left);
    app.flip_side(&dict);
    assert_eq!(app.side, TypingSide::Right);
    let first_row: String = app.keyboard.rows()[0].iter().map(|k| k.character).collect();
    assert_eq!(first_row, "YUIOP");
    app.flip_side(&dict);
    assert_eq!(app.side, TypingSide::Left);
    let first_row: String = app.keyboard.rows()[0].iter().map(|k| k.character).collect();
    assert_eq!(first_row, "QWERT");
}

#[test]
fn switch_layout_remembers_the_choice() {
    let layouts = Layouts::default();
    let mut app = fresh_app();
    let dict = app.switch_layout(KeyboardLayout::Colemak, &layouts);
    assert_eq!(app.layout, KeyboardLayout::Colemak);
    assert_eq!(dict.left.keys(), layouts.colemak.left.keys());
    let dict = app.switch_layout(KeyboardLayout::Dvorak, &layouts);
    assert_eq!(app.layout, KeyboardLayout::Dvorak);
    assert_eq!(dict.left.keys(), layouts.qwerty.left.keys(), "unknown layouts fall back to qwerty");
}

#[test]
fn parse_layout_name_maps_the_select_values() {
    assert_eq!(parse_layout_name("qwerty"), KeyboardLayout::Qwerty);
    assert_eq!(parse_layout_name("dvorak"), KeyboardLayout::Dvorak);
    assert_eq!(parse_layout_name("colemak"), KeyboardLayout::Colemak);
    assert_eq!(parse_layout_name("workman"), KeyboardLayout::Workman);
    assert_eq!(parse_layout_name("custom"), KeyboardLayout::Custom);
    assert_eq!(parse_layout_name("anything else"), KeyboardLayout::Qwerty);
}

#[test]
fn typed_characters_reach_buffer_and_keyboard() {
    let mut app = fresh_app();
    app.on_char('q');
    assert_eq!(app.typer.input(), "q");
    let held: Vec<char> = app
        .keyboard
        .rows()
        .iter()
        .flatten()
        .filter(|k| k.held)
        .map(|k| k.character)
        .collect();
    assert_eq!(held, vec!['Q']);
    app.on_key_up('q');
    assert!(app.keyboard.rows().iter().flatten().all(|k| !k.held));
}

#[test]
fn control_keys_drive_the_session() {
    let mut app = fresh_app();
    app.on_char('a');
    app.on_char('b');
    app.on_control(ControlKey::Backspace);
    assert_eq!(app.typer.input(), "a");
    app.on_control(ControlKey::Other);
    assert_eq!(app.typer.input(), "a");
    app.on_control(ControlKey::Enter);
    assert_eq!(app.typer.input(), "");
    assert_eq!(app.typer.last_word(), "a");
    app.on_char('x');
    app.on_control(ControlKey::Space);
    assert_eq!(app.typer.last_word(), "x");
}

#[test]
fn window_markers_are_plain_values() {
    assert_eq!(MainWindow::new(), MainWindow::default());
    assert_eq!(AboutWindow::new(), AboutWindow::default());
}
