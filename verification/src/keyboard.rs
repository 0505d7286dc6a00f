//! Per-key pressed-state tracking used to drive key highlighting.
//!
//! A [`KeyboardState`] mirrors the rows of the active [`Layout`] and keeps,
//! for every key, a level-triggered `held` flag and an edge-triggered
//! `just_pressed` flag.  It changes only in response to explicit event
//! calls; the rendering collaborator reads the rows back once per frame.

use vstd::prelude::*;
use crate::text::key_eq;
use crate::text::parse_rows;
use crate::text::same_key;
use crate::text::split_spaces;
use crate::text::views_of_rows;
use crate::words::WordSource;

verus! {

/// One key of the on-screen keyboard.
#[derive(Clone, Copy, Debug, PartialEq, Eq, Structural)]
pub struct InputKey {
    /// The character engraved on the key; it is also the key's identifier.
    pub character: char,
    /// Whether the key is held down right now.
    pub held: bool,
    /// Whether the key went down this tick.
    pub just_pressed: bool,
}

/// A key as it looks right after a rebuild: not held, not just pressed.
pub open spec fn fresh_key(c: char) -> InputKey {
    InputKey { character: c, held: false, just_pressed: false }
}

impl InputKey {
    /// A new, unpressed key for the given character.
    pub fn new(character: char) -> (r: InputKey)
        ensures
            r == fresh_key(character),
    {
        InputKey { character, held: false, just_pressed: false }
    }
}

/// An ordered keyboard-half configuration: the key rows of one side (or of
/// the full keyboard) together with the word source bound to it.
pub struct Layout {
    /// The rows of key characters, top to bottom.
    pub rows: Vec<Vec<char>>,
    /// The source practice words are drawn from while this layout is
    /// active.
    pub source: WordSource,
}

impl Layout {
    /// The rows of this layout as sequences of characters.
    pub open spec fn spec_rows(&self) -> Seq<Seq<char>> {
        views_of_rows(self.rows@)
    }

    /// Builds a layout from whitespace-separated key rows and the word
    /// source to bind to it.
    pub fn new(keys: &str, source: WordSource) -> (r: Layout)
        ensures
            r.spec_rows() == split_spaces(keys@),
            r.source == source,
    {
        Layout { rows: parse_rows(keys), source }
    }
}

/// A row model extended with the trailing synthetic space-bar row.
pub open spec fn with_space_row(model: Seq<Seq<char>>) -> Seq<Seq<char>> {
    model.push(seq![' '])
}

/// The rows of unpressed keys for the given row model.
pub open spec fn fresh_rows(model: Seq<Seq<char>>) -> Seq<Seq<InputKey>> {
    Seq::new(model.len(), |i: int| Seq::new(model[i].len(), |j: int| fresh_key(model[i][j])))
}

/// `k` with its `held` flag set to `down` when `k` answers to the
/// identifier `id`, and unchanged otherwise.
pub open spec fn with_held(k: InputKey, id: char, down: bool) -> InputKey {
    if same_key(k.character, id) {
        InputKey { held: down, ..k }
    } else {
        k
    }
}

/// `k` with its `just_pressed` flag set when `k` answers to `id`.
pub open spec fn with_pressed(k: InputKey, id: char, pressed: bool) -> InputKey {
    if same_key(k.character, id) {
        InputKey { just_pressed: pressed, ..k }
    } else {
        k
    }
}

/// Every key of `rows` updated by [`with_held`].
pub open spec fn set_held(rows: Seq<Seq<InputKey>>, id: char, down: bool) -> Seq<Seq<InputKey>> {
    Seq::new(rows.len(), |i: int| Seq::new(rows[i].len(), |j: int| with_held(rows[i][j], id, down)))
}

/// Every key of `rows` updated by [`with_pressed`].
pub open spec fn set_pressed(rows: Seq<Seq<InputKey>>, id: char, pressed: bool) -> Seq<
    Seq<InputKey>,
> {
    Seq::new(
        rows.len(),
        |i: int| Seq::new(rows[i].len(), |j: int| with_pressed(rows[i][j], id, pressed)),
    )
}

/// Whether no key of `rows` is held or just pressed.
pub open spec fn all_unpressed(rows: Seq<Seq<InputKey>>) -> bool {
    forall|i: int, j: int|
        0 <= i < rows.len() && 0 <= j < rows[i].len() ==> !(#[trigger] rows[i][j]).held && !rows[i][j].just_pressed
}

/// Stores rows of [`InputKey`]s for the on-screen keyboard.
pub struct KeyboardState {
    rows: Vec<Vec<InputKey>>,
}

impl View for KeyboardState {
    type V = Seq<Seq<InputKey>>;

    closed spec fn view(&self) -> Seq<Seq<InputKey>> {
        Seq::new(self.rows@.len(), |i: int| self.rows@[i]@)
    }
}

impl KeyboardState {
    /// Builds the keyboard for whitespace-separated key rows: one unpressed
    /// key per layout character, plus the trailing synthetic space-bar row.
    pub fn new(keys: &str) -> (r: KeyboardState)
        ensures
            r@ == fresh_rows(with_space_row(split_spaces(keys@))),
            all_unpressed(r@),
    {
        let model = parse_rows(keys);
        KeyboardState { rows: build_rows(&model) }
    }

    /// Replaces all rows to match the given layout, resetting every flag;
    /// the trailing space-bar row is appended as always.
    pub fn rebuild(&mut self, layout: &Layout)
        ensures
            final(self)@ == fresh_rows(with_space_row(layout.spec_rows())),
            all_unpressed(final(self)@),
    {
        self.rows = build_rows(&layout.rows);
    }

    /// Sets the `held` flag of every key answering to `id`; identifiers
    /// that match no key are silently ignored.
    pub fn set_down(&mut self, id: char, down: bool)
        ensures
            final(self)@ == set_held(old(self)@, id, down),
    {
        let mut new_rows: Vec<Vec<InputKey>> = Vec::new();
        let mut i: usize = 0;
        while i < self.rows.len()
            invariant
                0 <= i <= self.rows@.len(),
                new_rows@.len() == i,
                forall|p: int|
                    0 <= p < i ==> #[trigger] new_rows@[p]@ == set_held(self@, id, down)[p],
            decreases self.rows@.len() - i,
        {
            let row = &self.rows[i];
            let mut nr: Vec<InputKey> = Vec::new();
            let mut j: usize = 0;
            while j < row.len()
                invariant
                    0 <= j <= row@.len(),
                    nr@.len() == j,
                    forall|q: int| 0 <= q < j ==> #[trigger] nr@[q] == with_held(row@[q], id, down),
                decreases row@.len() - j,
            {
                let mut k = row[j];
                if key_eq(k.character, id) {
                    k.held = down;
                }
                nr.push(k);
                j = j + 1;
            }
            proof {
                assert(nr@ =~= set_held(self@, id, down)[i as int]);
            }
            new_rows.push(nr);
            i = i + 1;
        }
        self.rows = new_rows;
        proof {
            assert(final(self)@ =~~= set_held(old(self)@, id, down));
        }
    }

    /// Sets the `just_pressed` flag of every key answering to `id`;
    /// identifiers that match no key are silently ignored.
    pub fn set_pressed_edge(&mut self, id: char, pressed: bool)
        ensures
            final(self)@ == set_pressed(old(self)@, id, pressed),
    {
        let mut new_rows: Vec<Vec<InputKey>> = Vec::new();
        let mut i: usize = 0;
        while i < self.rows.len()
            invariant
                0 <= i <= self.rows@.len(),
                new_rows@.len() == i,
                forall|p: int|
                    0 <= p < i ==> #[trigger] new_rows@[p]@ == set_pressed(self@, id, pressed)[p],
            decreases self.rows@.len() - i,
        {
            let row = &self.rows[i];
            let mut nr: Vec<InputKey> = Vec::new();
            let mut j: usize = 0;
            while j < row.len()
                invariant
                    0 <= j <= row@.len(),
                    nr@.len() == j,
                    forall|q: int|
                        0 <= q < j ==> #[trigger] nr@[q] == with_pressed(row@[q], id, pressed),
                decreases row@.len() - j,
            {
                let mut k = row[j];
                if key_eq(k.character, id) {
                    k.just_pressed = pressed;
                }
                nr.push(k);
                j = j + 1;
            }
            proof {
                assert(nr@ =~= set_pressed(self@, id, pressed)[i as int]);
            }
            new_rows.push(nr);
            i = i + 1;
        }
        self.rows = new_rows;
        proof {
            assert(final(self)@ =~~= set_pressed(old(self)@, id, pressed));
        }
    }

    /// A read-only snapshot of the rows, for rendering.
    pub fn rows(&self) -> (r: &Vec<Vec<InputKey>>)
        ensures
            views_of_keys(r@) == self@,
    {
        &self.rows
    }
}

/// The views of a vector of key rows.
pub open spec fn views_of_keys(rows: Seq<Vec<InputKey>>) -> Seq<Seq<InputKey>> {
    Seq::new(rows.len(), |i: int| rows[i]@)
}

/// Builds the unpressed key rows for a row model, appending the trailing
/// space-bar row.
fn build_rows(model: &Vec<Vec<char>>) -> (r: Vec<Vec<InputKey>>)
    ensures
        views_of_keys(r@) == fresh_rows(with_space_row(views_of_rows(model@))),
{
    let mut rows: Vec<Vec<InputKey>> = Vec::new();
    let mut i: usize = 0;
    while i < model.len()
        invariant
            0 <= i <= model@.len(),
            rows@.len() == i,
            forall|p: int|
                0 <= p < i ==> #[trigger] rows@[p]@ == fresh_rows(views_of_rows(model@))[p],
        decreases model@.len() - i,
    {
        let row = &model[i];
        let mut nr: Vec<InputKey> = Vec::new();
        let mut j: usize = 0;
        while j < row.len()
            invariant
                0 <= j <= row@.len(),
                nr@.len() == j,
                forall|q: int| 0 <= q < j ==> #[trigger] nr@[q] == fresh_key(row@[q]),
            decreases row@.len() - j,
        {
            nr.push(InputKey::new(row[j]));
            j = j + 1;
        }
        proof {
            assert(nr@ =~= fresh_rows(views_of_rows(model@))[i as int]);
        }
        rows.push(nr);
        i = i + 1;
    }
    let mut space_bar: Vec<InputKey> = Vec::new();
    space_bar.push(InputKey::new(' '));
    proof {
        assert(space_bar@ =~= Seq::new(1, |j: int| fresh_key(' ')));
    }
    rows.push(space_bar);
    proof {
        assert(views_of_keys(rows@) =~~= fresh_rows(with_space_row(views_of_rows(model@))));
    }
    rows
}

/// Law: releasing a key after pressing it leaves the keyboard exactly as a
/// plain release would; in particular, starting from a fully released
/// keyboard, a press of `id` followed by its release restores every key.
pub proof fn lemma_set_down_round_trip(rows: Seq<Seq<InputKey>>, id: char)
    ensures
        set_held(set_held(rows, id, true), id, false) == set_held(rows, id, false),
        all_unpressed(rows) ==> set_held(set_held(rows, id, true), id, false) == rows,
{
    assert(set_held(set_held(rows, id, true), id, false) =~~= set_held(rows, id, false));
    if all_unpressed(rows) {
        assert forall|i: int, j: int|
            0 <= i < rows.len() && 0 <= j < rows[i].len() implies set_held(
            set_held(rows, id, true),
            id,
            false,
        )[i][j] == rows[i][j] by {
            assert(!rows[i][j].held);
        }
        assert(set_held(set_held(rows, id, true), id, false) =~~= rows);
    }
}

} // verus!
