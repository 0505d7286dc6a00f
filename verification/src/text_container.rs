//! The cursor-based variant of the practice-word store: instead of
//! draining a queue, it keeps a growing buffer of words and walks a cursor
//! through it, refilling the buffer when the cursor reaches the end.

use vstd::prelude::*;
use vstd::string::StrSliceExecFns;
use crate::random::sample_indices;
use crate::text::is_space;
use crate::text::is_space_char;
use crate::words::dict_has;
use crate::words::distinct_views;
use crate::words::gen_word;

verus! {

/// Whether `keys` holds at least one non-whitespace character, the
/// condition under which key-based generation is possible.
pub open spec fn has_key_char(keys: Seq<char>) -> bool {
    exists|i: int| 0 <= i < keys.len() && !is_space_char(#[trigger] keys[i])
}

/// The constraint on a word synthesized from `keys`: 3 to 6 characters,
/// each a non-whitespace character of `keys`.
pub open spec fn word_from_keys(w: Seq<char>, keys: Seq<char>) -> bool {
    &&& 3 <= w.len() <= 6
    &&& forall|i: int| 0 <= i < w.len() ==> keys.contains(#[trigger] w[i]) && !is_space_char(w[i])
}

/// The non-whitespace characters of `keys`, in order of appearance and
/// with repeats kept.
fn clean_chars(keys: &str) -> (r: Vec<char>)
    ensures
        forall|p: int|
            0 <= p < r@.len() ==> keys@.contains(#[trigger] r@[p]) && !is_space_char(r@[p]),
        r@.len() > 0 <==> has_key_char(keys@),
{
    let n = keys.unicode_len();
    let mut out: Vec<char> = Vec::new();
    let mut i: usize = 0;
    while i < n
        invariant
            n == keys@.len(),
            0 <= i <= n,
            forall|p: int|
                0 <= p < out@.len() ==> keys@.contains(#[trigger] out@[p]) && !is_space_char(
                    out@[p],
                ),
            out@.len() > 0 <==> exists|k: int| 0 <= k < i && !is_space_char(#[trigger] keys@[k]),
        decreases n - i,
    {
        let c = keys.get_char(i);
        if !is_space(c) {
            out.push(c);
            proof {
                assert(keys@.contains(c)) by {
                    assert(keys@[i as int] == c);
                }
                assert(!is_space_char(keys@[i as int]));
            }
        }
        i = i + 1;
    }
    out
}

/// Stores the words and typing progress of one training side, cursor
/// style: `current_index` points at the most recently finished word, and
/// the word after it is the one to type next.
pub struct TextContainer {
    /// The whitespace-separated key rows words are synthesized from.
    pub keys: String,
    /// The in-progress input for the current word.
    pub input_buffer: String,
    /// All practice words produced so far; it only ever grows, except when
    /// a dictionary batch replaces it wholesale.
    pub words_buffer: Vec<String>,
    /// The cursor into `words_buffer`.
    pub current_index: usize,
    /// A loaded word list to sample from instead of synthesizing, once the
    /// loading collaborator has handed one over.
    pub dictionary: Option<Vec<String>>,
}

impl TextContainer {
    /// Well-formedness: the cursor stays inside the buffer once it has
    /// moved off the start.
    pub open spec fn wf(&self) -> bool {
        self.current_index == 0 || self.current_index < self.words_buffer@.len()
    }

    /// Builds a container over the given key rows and synthesizes an
    /// initial batch of `words_amount` words from them.
    pub fn new(keys: &str, words_amount: usize) -> (r: TextContainer)
        requires
            has_key_char(keys@),
        ensures
            r.wf(),
            r.keys@ == keys@,
            r.input_buffer@ == Seq::<char>::empty(),
            r.current_index == 0,
            r.dictionary is None,
            r.words_buffer@.len() == words_amount,
            forall|i: int|
                0 <= i < r.words_buffer@.len() ==> word_from_keys(
                    (#[trigger] r.words_buffer@[i])@,
                    keys@,
                ),
    {
        let mut container = TextContainer {
            input_buffer: String::new(),
            words_buffer: Vec::new(),
            current_index: 0,
            keys: keys.to_owned(),
            dictionary: None,
        };
        container.generate_words(words_amount);
        container
    }

    /// Fills the buffer: from the loaded dictionary when one is present,
    /// else by synthesizing from the key rows.
    pub fn generate_words(&mut self, amount: usize)
        requires
            old(self).dictionary is None ==> has_key_char(old(self).keys@),
            old(self).dictionary is None ==> old(self).wf(),
        ensures
            final(self).keys == old(self).keys,
            final(self).input_buffer == old(self).input_buffer,
            final(self).dictionary == old(self).dictionary,
            old(self).dictionary is Some ==> {
                &&& final(self).current_index == 0
                &&& final(self).words_buffer@.len() == (if amount
                    <= old(self).dictionary.unwrap()@.len() {
                    amount as int
                } else {
                    old(self).dictionary.unwrap()@.len() as int
                })
                &&& forall|i: int|
                    0 <= i < final(self).words_buffer@.len() ==> dict_has(
                        old(self).dictionary.unwrap()@,
                        (#[trigger] final(self).words_buffer@[i])@,
                    )
                &&& distinct_views(old(self).dictionary.unwrap()@) ==> distinct_views(
                    final(self).words_buffer@,
                )
            },
            old(self).dictionary is None ==> {
                &&& final(self).current_index == old(self).current_index
                &&& final(self).words_buffer@.len() == old(self).words_buffer@.len() + amount
                &&& forall|i: int|
                    0 <= i < old(self).words_buffer@.len() ==> final(self).words_buffer@[i] == old(
                        self,
                    ).words_buffer@[i]
                &&& forall|i: int|
                    old(self).words_buffer@.len() <= i < final(self).words_buffer@.len()
                        ==> word_from_keys(
                        (#[trigger] final(self).words_buffer@[i])@,
                        old(self).keys@,
                    )
            },
            final(self).wf(),
    {
        match &self.dictionary {
            Some(_) => self.generate_words_from_dictionary(amount),
            None => self.generate_words_from_keys(amount),
        }
    }

    /// Replaces the buffer with `amount` words sampled without replacement
    /// from the loaded dictionary (all of it when `amount` exceeds it) and
    /// restarts the cursor.
    fn generate_words_from_dictionary(&mut self, amount: usize)
        requires
            old(self).dictionary is Some,
        ensures
            final(self).keys == old(self).keys,
            final(self).input_buffer == old(self).input_buffer,
            final(self).dictionary == old(self).dictionary,
            final(self).current_index == 0,
            final(self).words_buffer@.len() == (if amount <= old(self).dictionary.unwrap()@.len() {
                amount as int
            } else {
                old(self).dictionary.unwrap()@.len() as int
            }),
            forall|i: int|
                0 <= i < final(self).words_buffer@.len() ==> dict_has(
                    old(self).dictionary.unwrap()@,
                    (#[trigger] final(self).words_buffer@[i])@,
                ),
            distinct_views(old(self).dictionary.unwrap()@) ==> distinct_views(
                final(self).words_buffer@,
            ),
            final(self).wf(),
    {
        let n = match &self.dictionary {
            Some(dict) => dict.len(),
            None => 0,
        };
        let take: usize = if amount < n {
            amount
        } else {
            n
        };
        let idx = sample_indices(n, take);
        let mut out: Vec<String> = Vec::new();
        let mut i: usize = 0;
        while i < take
            invariant
                self.dictionary is Some,
                n == self.dictionary.unwrap()@.len(),
                idx@.len() == take,
                take <= n,
                forall|t: int| 0 <= t < idx@.len() ==> idx@[t] < n,
                forall|t: int, u: int| 0 <= t < u < idx@.len() ==> idx@[t] != idx@[u],
                out@.len() == i,
                0 <= i <= take,
                forall|t: int|
                    0 <= t < i ==> (#[trigger] out@[t])@ == self.dictionary.unwrap()@[idx@[t] as int]@,
            decreases take - i,
        {
            let w = match &self.dictionary {
                Some(dict) => dict[idx[i]].clone(),
                None => String::new(),
            };
            out.push(w);
            i = i + 1;
        }
        proof {
            let dict = self.dictionary.unwrap()@;
            assert forall|t: int| 0 <= t < out@.len() implies dict_has(
                dict,
                (#[trigger] out@[t])@,
            ) by {
                assert(dict[idx@[t] as int]@ == out@[t]@);
            }
            if distinct_views(dict) {
                assert forall|t: int, u: int| 0 <= t < u < out@.len() implies out@[t]@
                    != out@[u]@ by {
                    assert(out@[t]@ == dict[idx@[t] as int]@);
                    assert(out@[u]@ == dict[idx@[u] as int]@);
                    if idx@[t] < idx@[u] {
                        assert(dict[idx@[t] as int]@ != dict[idx@[u] as int]@);
                    } else {
                        assert(dict[idx@[u] as int]@ != dict[idx@[t] as int]@);
                    }
                }
            }
        }
        self.words_buffer = out;
        self.current_index = 0;
    }

    /// Appends `amount` words synthesized from the key rows to the buffer.
    fn generate_words_from_keys(&mut self, amount: usize)
        requires
            has_key_char(old(self).keys@),
        ensures
            final(self).keys == old(self).keys,
            final(self).input_buffer == old(self).input_buffer,
            final(self).dictionary == old(self).dictionary,
            final(self).current_index == old(self).current_index,
            final(self).words_buffer@.len() == old(self).words_buffer@.len() + amount,
            forall|i: int|
                0 <= i < old(self).words_buffer@.len() ==> final(self).words_buffer@[i] == old(
                    self,
                ).words_buffer@[i],
            forall|i: int|
                old(self).words_buffer@.len() <= i < final(self).words_buffer@.len()
                    ==> word_from_keys((#[trigger] final(self).words_buffer@[i])@, old(self).keys@),
    {
        let chars = clean_chars(self.keys.as_str());
        let mut k: usize = 0;
        while k < amount
            invariant
                chars@.len() > 0,
                forall|p: int|
                    0 <= p < chars@.len() ==> old(self).keys@.contains(#[trigger] chars@[p])
                        && !is_space_char(chars@[p]),
                self.keys == old(self).keys,
                self.input_buffer == old(self).input_buffer,
                self.dictionary == old(self).dictionary,
                self.current_index == old(self).current_index,
                0 <= k <= amount,
                self.words_buffer@.len() == old(self).words_buffer@.len() + k,
                forall|i: int|
                    0 <= i < old(self).words_buffer@.len() ==> self.words_buffer@[i] == old(
                        self,
                    ).words_buffer@[i],
                forall|i: int|
                    old(self).words_buffer@.len() <= i < self.words_buffer@.len()
                        ==> word_from_keys((#[trigger] self.words_buffer@[i])@, old(self).keys@),
            decreases amount - k,
        {
            let w = gen_word(&chars);
            proof {
                assert forall|q: int| 0 <= q < w@.len() implies old(self).keys@.contains(
                    #[trigger] w@[q],
                ) && !is_space_char(w@[q]) by {
                    let c = w@[q];
                    assert(chars@.contains(c));
                    let p = choose|p: int| 0 <= p < chars@.len() && chars@[p] == c;
                    assert(old(self).keys@.contains(chars@[p]) && !is_space_char(chars@[p]));
                }
            }
            self.words_buffer.push(w);
            k = k + 1;
        }
    }

    /// The word most recently finished, or nothing while the cursor still
    /// sits at the start.
    pub fn last_word(&self) -> (r: Option<&String>)
        requires
            self.wf(),
        ensures
            r is Some <==> self.current_index > 0,
            r matches Some(w) ==> w@ == self.words_buffer@[self.current_index as int]@,
    {
        if self.current_index == 0 {
            return None;
        }
        Some(&self.words_buffer[self.current_index])
    }

    /// The word after the cursor: the one to type next, if the buffer
    /// still holds one.
    pub fn next_word(&self) -> (r: Option<&String>)
        requires
            self.wf(),
        ensures
            r is Some <==> self.current_index + 1 < self.words_buffer@.len(),
            r matches Some(w) ==> w@ == self.words_buffer@[self.current_index + 1]@,
    {
        let n = self.words_buffer.len();
        if self.current_index >= n || self.current_index + 1 >= n {
            return None;
        }
        Some(&self.words_buffer[self.current_index + 1])
    }

    /// Advances the cursor to the next word; when the buffer is exhausted
    /// it instead appends a fresh batch synthesized from the key rows.
    pub fn try_increment(&mut self)
        requires
            old(self).wf(),
            has_key_char(old(self).keys@),
        ensures
            final(self).wf(),
            final(self).keys == old(self).keys,
            final(self).input_buffer == old(self).input_buffer,
            final(self).dictionary == old(self).dictionary,
            old(self).current_index + 1 < old(self).words_buffer@.len() ==> {
                &&& final(self).current_index == old(self).current_index + 1
                &&& final(self).words_buffer == old(self).words_buffer
            },
            old(self).current_index + 1 >= old(self).words_buffer@.len() ==> {
                &&& final(self).current_index == old(self).current_index
                &&& final(self).words_buffer@.len() == old(self).words_buffer@.len() + 32
                &&& forall|i: int|
                    0 <= i < old(self).words_buffer@.len() ==> final(self).words_buffer@[i] == old(
                        self,
                    ).words_buffer@[i]
                &&& forall|i: int|
                    old(self).words_buffer@.len() <= i < final(self).words_buffer@.len()
                        ==> word_from_keys(
                        (#[trigger] final(self).words_buffer@[i])@,
                        old(self).keys@,
                    )
            },
    {
        let n = self.words_buffer.len();
        if self.current_index >= n || self.current_index + 1 >= n {
            self.generate_words_from_keys(32);
        } else {
            self.current_index = self.current_index + 1;
        }
    }
}

} // verus!
