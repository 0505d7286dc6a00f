//! Application-level state of the trainer: which panel is shown, which
//! hand is being trained, the user's toggles, and the typing session and
//! keyboard owned by the active side.  The input collaborator forwards raw
//! key events to the methods here; the rendering collaborator only reads.

use vstd::prelude::*;
use crate::keyboard::fresh_rows;
use crate::keyboard::set_held;
use crate::keyboard::with_space_row;
use crate::keyboard::KeyboardState;
use crate::session::backspace_rel;
use crate::session::submit_rel;
use crate::session::TypingData;
use crate::session::INITIAL_FILL;
use crate::text::split_spaces;
use crate::text::str_eq;
use crate::words::layout_dict_like;
use crate::words::LayoutDictionary;
use crate::words::Layouts;
use crate::words::WordDictionary;

verus! {

/// Which main panel is on screen.
#[derive(Clone, Copy, Debug, PartialEq, Eq, Structural)]
pub enum MainPanel {
    Typing,
    Info,
}

/// Which hand is being trained.
#[derive(Clone, Copy, Debug, PartialEq, Eq, Structural)]
pub enum TypingSide {
    Left,
    Right,
}

/// The keyboard layout the user selected.
#[derive(Clone, Copy, Debug, PartialEq, Eq, Structural)]
pub enum KeyboardLayout {
    Qwerty,
    Dvorak,
    Colemak,
    Workman,
    Custom,
}

/// The control keys the session reacts to; everything else is `Other`.
#[derive(Clone, Copy, Debug, PartialEq, Eq, Structural)]
pub enum ControlKey {
    Backspace,
    Space,
    Enter,
    Other,
}

/// The user's feature toggles.
#[derive(Clone, Copy, Debug, PartialEq, Eq, Structural)]
pub struct AppSettings {
    pub sound_enabled: bool,
    pub status_enabled: bool,
    pub keyboard_enabled: bool,
}

/// The whole state of the trainer application.
pub struct App {
    /// The on-screen keyboard of the active side.
    pub keyboard: KeyboardState,
    /// The user's toggles.
    pub settings: AppSettings,
    /// The typing session of the active side.
    pub typer: TypingData,
    /// The selected keyboard layout.
    pub layout: KeyboardLayout,
    /// The panel currently shown.
    pub panel: MainPanel,
    /// The hand currently trained.
    pub side: TypingSide,
}

/// The key rows of the given side of a layout dictionary.
pub open spec fn spec_side_keys(dictionary: LayoutDictionary, side: TypingSide) -> Seq<char> {
    match side {
        TypingSide::Left => dictionary.left.keys@,
        TypingSide::Right => dictionary.right.keys@,
    }
}

/// The word list of the given side of a layout dictionary.
pub open spec fn spec_side_words(dictionary: LayoutDictionary, side: TypingSide) -> Seq<String> {
    match side {
        TypingSide::Left => dictionary.left.words@,
        TypingSide::Right => dictionary.right.words@,
    }
}

/// The side opposite to `side`.
pub open spec fn spec_flip(side: TypingSide) -> TypingSide {
    match side {
        TypingSide::Left => TypingSide::Right,
        TypingSide::Right => TypingSide::Left,
    }
}

/// The layout a select-box value names; unknown values fall back to
/// QWERTY.
pub open spec fn spec_layout_of(s: Seq<char>) -> KeyboardLayout {
    if s == "qwerty"@ {
        KeyboardLayout::Qwerty
    } else if s == "dvorak"@ {
        KeyboardLayout::Dvorak
    } else if s == "colemak"@ {
        KeyboardLayout::Colemak
    } else if s == "workman"@ {
        KeyboardLayout::Workman
    } else if s == "custom"@ {
        KeyboardLayout::Custom
    } else {
        KeyboardLayout::Qwerty
    }
}

/// The dictionary pair that serves a layout; layouts without a word list
/// of their own fall back to QWERTY's.
pub open spec fn spec_layout_dictionary(layouts: Layouts, layout: KeyboardLayout) -> LayoutDictionary {
    match layout {
        KeyboardLayout::Colemak => layouts.colemak,
        _ => layouts.qwerty,
    }
}

/// Maps a select-box value to the layout it names.
pub fn parse_layout_name(name: &str) -> (r: KeyboardLayout)
    ensures
        r == spec_layout_of(name@),
{
    if str_eq(name, "qwerty") {
        KeyboardLayout::Qwerty
    } else if str_eq(name, "dvorak") {
        KeyboardLayout::Dvorak
    } else if str_eq(name, "colemak") {
        KeyboardLayout::Colemak
    } else if str_eq(name, "workman") {
        KeyboardLayout::Workman
    } else if str_eq(name, "custom") {
        KeyboardLayout::Custom
    } else {
        KeyboardLayout::Qwerty
    }
}

impl App {
    /// Well-formedness of the whole application state.
    pub open spec fn wf(&self) -> bool {
        self.typer.wf()
    }

    /// Starts the trainer on the given dictionary: left side, typing
    /// panel, QWERTY, everything enabled, and an initial fill of words.
    pub fn new(dict: &WordDictionary) -> (r: App)
        ensures
            r.wf(),
            r.keyboard@ == fresh_rows(with_space_row(split_spaces(dict.keys@))),
            r.typer.streak == 0,
            r.typer.input@ == Seq::<char>::empty(),
            r.typer.source.spec_words() == dict.words@,
            r.typer.source.generated_batch(INITIAL_FILL as int, r.typer.words@),
            r.panel == MainPanel::Typing,
            r.side == TypingSide::Left,
            r.layout == KeyboardLayout::Qwerty,
            r.settings == (AppSettings {
                sound_enabled: true,
                status_enabled: true,
                keyboard_enabled: true,
            }),
    {
        App {
            keyboard: KeyboardState::new(dict.keys()),
            typer: TypingData::new(INITIAL_FILL, dict),
            panel: MainPanel::Typing,
            side: TypingSide::Left,
            settings: AppSettings {
                sound_enabled: true,
                status_enabled: true,
                keyboard_enabled: true,
            },
            layout: KeyboardLayout::Qwerty,
        }
    }

    /// Rebuilds the on-screen keyboard for the active side's key rows.
    pub fn refresh_keyboard(&mut self, dictionary: &LayoutDictionary)
        ensures
            final(self).keyboard@ == fresh_rows(
                with_space_row(split_spaces(spec_side_keys(*dictionary, old(self).side))),
            ),
            final(self).typer == old(self).typer,
            final(self).settings == old(self).settings,
            final(self).layout == old(self).layout,
            final(self).panel == old(self).panel,
            final(self).side == old(self).side,
            old(self).wf() ==> final(self).wf(),
    {
        match self.side {
            TypingSide::Left => {
                self.keyboard = KeyboardState::new(dictionary.left.keys());
            },
            TypingSide::Right => {
                self.keyboard = KeyboardState::new(dictionary.right.keys());
            },
        }
    }

    /// Switches training to the other hand: the queue is rebound to the
    /// new side's word list and refilled, and the keyboard is rebuilt for
    /// the new side's rows.  The input buffer and the streak survive the
    /// switch.
    pub fn flip_side(&mut self, dictionary: &LayoutDictionary)
        requires
            old(self).wf(),
        ensures
            final(self).wf(),
            final(self).side == spec_flip(old(self).side),
            final(self).keyboard@ == fresh_rows(
                with_space_row(split_spaces(spec_side_keys(*dictionary, spec_flip(old(self).side)))),
            ),
            final(self).typer.source.spec_words() == spec_side_words(
                *dictionary,
                spec_flip(old(self).side),
            ),
            final(self).typer.source.generated_batch(
                INITIAL_FILL as int,
                final(self).typer.words@,
            ),
            final(self).typer.input == old(self).typer.input,
            final(self).typer.streak == old(self).typer.streak,
            final(self).typer.last_word == old(self).typer.last_word,
            final(self).settings == old(self).settings,
            final(self).layout == old(self).layout,
            final(self).panel == old(self).panel,
    {
        match self.side {
            TypingSide::Left => {
                self.side = TypingSide::Right;
            },
            TypingSide::Right => {
                self.side = TypingSide::Left;
            },
        }
        match self.side {
            TypingSide::Left => {
                self.typer.generate_words(INITIAL_FILL, &dictionary.left);
            },
            TypingSide::Right => {
                self.typer.generate_words(INITIAL_FILL, &dictionary.right);
            },
        }
        self.refresh_keyboard(dictionary);
    }

    /// Selects a keyboard layout: remembers the choice, rebinds the
    /// session to the chosen layout's word list for the active side,
    /// rebuilds the keyboard, and hands the caller the dictionary pair to
    /// keep as current.
    pub fn switch_layout(&mut self, choice: KeyboardLayout, layouts: &Layouts) -> (d:
        LayoutDictionary)
        requires
            old(self).wf(),
        ensures
            final(self).wf(),
            layout_dict_like(d, spec_layout_dictionary(*layouts, choice)),
            final(self).layout == choice,
            final(self).side == old(self).side,
            final(self).keyboard@ == fresh_rows(
                with_space_row(
                    split_spaces(
                        spec_side_keys(
                            spec_layout_dictionary(*layouts, choice),
                            old(self).side,
                        ),
                    ),
                ),
            ),
            final(self).typer.source.spec_words() == spec_side_words(
                spec_layout_dictionary(*layouts, choice),
                old(self).side,
            ),
            final(self).typer.source.generated_batch(
                INITIAL_FILL as int,
                final(self).typer.words@,
            ),
            final(self).typer.input == old(self).typer.input,
            final(self).typer.streak == old(self).typer.streak,
            final(self).typer.last_word == old(self).typer.last_word,
            final(self).settings == old(self).settings,
            final(self).panel == old(self).panel,
    {
        self.layout = choice;
        let d = match choice {
            KeyboardLayout::Colemak => layouts.colemak.duplicate(),
            _ => layouts.qwerty.duplicate(),
        };
        match self.side {
            TypingSide::Left => {
                self.typer.generate_words(INITIAL_FILL, &d.left);
            },
            TypingSide::Right => {
                self.typer.generate_words(INITIAL_FILL, &d.right);
            },
        }
        self.refresh_keyboard(&d);
        d
    }

    /// Toggles between the typing panel and the info panel.
    pub fn toggle_info(&mut self)
        ensures
            final(self).panel == (match old(self).panel {
                MainPanel::Typing => MainPanel::Info,
                MainPanel::Info => MainPanel::Typing,
            }),
            final(self).keyboard == old(self).keyboard,
            final(self).typer == old(self).typer,
            final(self).settings == old(self).settings,
            final(self).layout == old(self).layout,
            final(self).side == old(self).side,
            old(self).wf() ==> final(self).wf(),
    {
        match self.panel {
            MainPanel::Typing => {
                self.panel = MainPanel::Info;
            },
            MainPanel::Info => {
                self.panel = MainPanel::Typing;
            },
        }
    }

    /// Toggles keystroke sounds.
    pub fn toggle_sound(&mut self)
        ensures
            final(self).settings.sound_enabled == !old(self).settings.sound_enabled,
            final(self).settings.status_enabled == old(self).settings.status_enabled,
            final(self).settings.keyboard_enabled == old(self).settings.keyboard_enabled,
            final(self).keyboard == old(self).keyboard,
            final(self).typer == old(self).typer,
            final(self).layout == old(self).layout,
            final(self).panel == old(self).panel,
            final(self).side == old(self).side,
            old(self).wf() ==> final(self).wf(),
    {
        self.settings.sound_enabled = !self.settings.sound_enabled;
    }

    /// Toggles the on-screen keyboard.
    pub fn toggle_keyboard(&mut self)
        ensures
            final(self).settings.keyboard_enabled == !old(self).settings.keyboard_enabled,
            final(self).settings.sound_enabled == old(self).settings.sound_enabled,
            final(self).settings.status_enabled == old(self).settings.status_enabled,
            final(self).keyboard == old(self).keyboard,
            final(self).typer == old(self).typer,
            final(self).layout == old(self).layout,
            final(self).panel == old(self).panel,
            final(self).side == old(self).side,
            old(self).wf() ==> final(self).wf(),
    {
        self.settings.keyboard_enabled = !self.settings.keyboard_enabled;
    }

    /// A printable character was typed: the matching key is marked held
    /// and the character lands in the input buffer.
    pub fn on_char(&mut self, ch: char)
        requires
            old(self).wf(),
        ensures
            final(self).wf(),
            final(self).keyboard@ == set_held(old(self).keyboard@, ch, true),
            final(self).typer.input@ == old(self).typer.input@.push(ch),
            final(self).typer.streak == old(self).typer.streak,
            final(self).typer.last_word == old(self).typer.last_word,
            final(self).typer.words == old(self).typer.words,
            final(self).typer.source == old(self).typer.source,
            final(self).settings == old(self).settings,
            final(self).layout == old(self).layout,
            final(self).panel == old(self).panel,
            final(self).side == old(self).side,
    {
        self.keyboard.set_down(ch, true);
        self.typer.push(ch);
    }

    /// A key was released: the matching key is no longer held.
    pub fn on_key_up(&mut self, ch: char)
        ensures
            final(self).keyboard@ == set_held(old(self).keyboard@, ch, false),
            final(self).typer == old(self).typer,
            final(self).settings == old(self).settings,
            final(self).layout == old(self).layout,
            final(self).panel == old(self).panel,
            final(self).side == old(self).side,
            old(self).wf() ==> final(self).wf(),
    {
        self.keyboard.set_down(ch, false);
    }

    /// A control key went down: backspace removes the last input
    /// character, and space or enter submits the current input.
    pub fn on_control(&mut self, key: ControlKey)
        requires
            old(self).wf(),
        ensures
            final(self).wf(),
            key == ControlKey::Backspace ==> backspace_rel(old(self).typer, final(self).typer),
            key == ControlKey::Space || key == ControlKey::Enter ==> submit_rel(
                old(self).typer,
                final(self).typer,
            ),
            key == ControlKey::Other ==> final(self).typer == old(self).typer,
            final(self).keyboard == old(self).keyboard,
            final(self).settings == old(self).settings,
            final(self).layout == old(self).layout,
            final(self).panel == old(self).panel,
            final(self).side == old(self).side,
    {
        match key {
            ControlKey::Backspace => {
                let _ = self.typer.pop();
            },
            ControlKey::Space => {
                self.typer.submit();
            },
            ControlKey::Enter => {
                self.typer.submit();
            },
            ControlKey::Other => {},
        }
    }
}

} // verus!
