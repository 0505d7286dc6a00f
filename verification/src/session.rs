//! The state of one in-progress typing practice run: the input buffer being
//! typed, the queue of upcoming words, the last submitted word, and the
//! streak of consecutive correct submissions.

use vstd::prelude::*;
use vstd::string::StringExecFns;
use vstd::string::StrSliceExecFns;
use crate::text::push_char;
use crate::text::str_eq;
use crate::text::trim;
use crate::text::trim_spaces;
use crate::words::clone_words;
use crate::words::ConfigurationError;
use crate::words::WordDictionary;
use crate::words::WordSource;

verus! {

/// How many words a session appends when its queue runs dry.
pub const REFILL_AMOUNT: usize = 32;

/// How many words a session requests when it is bound to a new source.
pub const INITIAL_FILL: usize = 10;

/// Data for one typing practice session.
///
/// The front of `words` is the word the user is expected to type next.
/// Submitting compares the trimmed input buffer against it, adjusts the
/// streak, pops it, and refills the queue from the bound source when the
/// queue has run dry.  The input buffer is not capped: submission (or
/// backspacing) is what empties it.
pub struct TypingData {
    /// The in-progress input for the current word.
    pub input: String,
    /// Consecutive exactly-correct submissions; reset to zero on the
    /// first mismatch.
    pub streak: i32,
    /// The most recently submitted input, kept for display.
    pub last_word: String,
    /// Upcoming practice words, in presentation order.
    pub words: Vec<String>,
    /// The strategy the queue is refilled from.
    pub source: WordSource,
}

/// How one submission transforms a session: the input becomes the last
/// word and is cleared; if a word was queued, the streak advances on an
/// exact match of the trimmed input and resets otherwise, and the front of
/// the queue is popped; a queue that has run dry is refilled from the
/// bound source, so a productive source never leaves it empty.
pub open spec fn submit_rel(pre: TypingData, post: TypingData) -> bool {
    &&& post.source == pre.source
    &&& post.last_word == pre.input
    &&& post.input@ == Seq::<char>::empty()
    &&& pre.words@.len() == 0 ==> post.streak == pre.streak
    &&& pre.words@.len() > 0 ==> post.streak == (if trim_spaces(pre.input@) == pre.words@[0]@ {
        if pre.streak < i32::MAX {
            pre.streak + 1
        } else {
            pre.streak as int
        }
    } else {
        0
    })
    &&& pre.words@.len() > 1 ==> post.words@ == pre.words@.drop_first()
    &&& pre.words@.len() <= 1 ==> pre.source.generated_batch(REFILL_AMOUNT as int, post.words@)
    &&& pre.source.productive() && pre.words@.len() > 0 ==> post.words@.len() > 0
}

/// How one backspace transforms a session: the last input character is
/// removed, and a session with an empty input buffer is left unchanged.
pub open spec fn backspace_rel(pre: TypingData, post: TypingData) -> bool {
    &&& post.streak == pre.streak
    &&& post.last_word == pre.last_word
    &&& post.words == pre.words
    &&& post.source == pre.source
    &&& pre.input@.len() == 0 ==> post == pre
    &&& pre.input@.len() > 0 ==> post.input@ == pre.input@.drop_last()
}

impl TypingData {
    /// Well-formedness: the streak never goes negative, the bound source
    /// can be generated from, and every queued word satisfies the source's
    /// word constraint.
    pub open spec fn wf(&self) -> bool {
        &&& self.streak >= 0
        &&& self.source.wf()
        &&& forall|i: int|
            0 <= i < self.words@.len() ==> self.source.word_ok(#[trigger] self.words@[i]@)
    }

    /// Builds a session bound to (a copy of) the given dictionary and
    /// fills its queue with `amount` sampled words.
    pub fn new(amount: usize, dictionary: &WordDictionary) -> (r: TypingData)
        ensures
            r.wf(),
            r.input@ == Seq::<char>::empty(),
            r.last_word@ == Seq::<char>::empty(),
            r.streak == 0,
            r.source is Dictionary,
            r.source.spec_words() == dictionary.words@,
            r.source.generated_batch(amount as int, r.words@),
    {
        let source = WordSource::dictionary(clone_words(&dictionary.words));
        let words = match source.generate(amount) {
            Ok(ws) => ws,
            Err(_) => unreached(),
        };
        TypingData {
            input: String::new(),
            streak: 0,
            last_word: String::new(),
            words,
            source,
        }
    }

    /// Finalizes the current input: remembers it as the last word, compares
    /// its trimmed form against the front of the queue (if any) to advance
    /// or reset the streak, pops the front, clears the input, and refills
    /// the queue from the bound source when it has run dry.
    pub fn submit(&mut self)
        requires
            old(self).wf(),
        ensures
            final(self).wf(),
            submit_rel(*old(self), *final(self)),
    {
        self.last_word = self.input.clone();
        if self.words.len() > 0 {
            let trimmed = trim(self.input.as_str());
            if str_eq(trimmed.as_str(), self.words[0].as_str()) {
                if self.streak < i32::MAX {
                    self.streak = self.streak + 1;
                }
            } else {
                self.streak = 0;
            }
            let _ = self.words.remove(0);
            proof {
                assert(self.words@ =~= old(self).words@.drop_first());
            }
        }
        self.input = String::new();
        if self.words.len() == 0 {
            let batch = match self.source.generate(REFILL_AMOUNT) {
                Ok(ws) => ws,
                Err(_) => unreached(),
            };
            self.words = batch;
        }
    }

    /// The most recently submitted input, or the empty string before the
    /// first submission.
    pub fn last_word(&self) -> (r: &str)
        ensures
            r@ == self.last_word@,
    {
        self.last_word.as_str()
    }

    /// The word the user is expected to type next, if the queue holds one.
    pub fn next_word(&self) -> (r: Option<&str>)
        ensures
            r is Some <==> self.words@.len() > 0,
            r matches Some(w) ==> w@ == self.words@[0]@,
    {
        if self.words.len() > 0 {
            Some(self.words[0].as_str())
        } else {
            None
        }
    }

    /// Appends a string to the input buffer.
    pub fn push_str(&mut self, string: &str)
        ensures
            final(self).input@ == old(self).input@ + string@,
            final(self).streak == old(self).streak,
            final(self).last_word == old(self).last_word,
            final(self).words == old(self).words,
            final(self).source == old(self).source,
            old(self).wf() ==> final(self).wf(),
    {
        self.input.append(string);
    }

    /// Appends a single character to the input buffer.
    pub fn push(&mut self, c: char)
        ensures
            final(self).input@ == old(self).input@.push(c),
            final(self).streak == old(self).streak,
            final(self).last_word == old(self).last_word,
            final(self).words == old(self).words,
            final(self).source == old(self).source,
            old(self).wf() ==> final(self).wf(),
    {
        push_char(&mut self.input, c);
    }

    /// The input typed so far for the current word.
    pub fn input(&self) -> (r: &str)
        ensures
            r@ == self.input@,
    {
        self.input.as_str()
    }

    /// Removes the last character of the input buffer; a no-op on an empty
    /// buffer.
    pub fn pop(&mut self) -> (r: Option<char>)
        ensures
            backspace_rel(*old(self), *final(self)),
            old(self).input@.len() == 0 ==> r is None,
            old(self).input@.len() > 0 ==> r == Some(old(self).input@.last()),
            old(self).wf() ==> final(self).wf(),
    {
        let n = self.input.unicode_len();
        if n == 0 {
            return None;
        }
        let c = self.input.as_str().get_char(n - 1);
        let shorter = self.input.as_str().substring_char(0, n - 1).to_owned();
        self.input = shorter;
        proof {
            assert(old(self).input@.subrange(0, n - 1) =~= old(self).input@.drop_last());
        }
        Some(c)
    }

    /// The queue of upcoming words.
    pub fn buffer(&self) -> (r: &Vec<String>)
        ensures
            r@ == self.words@,
    {
        &self.words
    }

    /// Empties the queue of upcoming words; the bound source, the input
    /// buffer and the streak are untouched.
    pub fn drain(&mut self)
        ensures
            final(self).words@ == Seq::<String>::empty(),
            final(self).input == old(self).input,
            final(self).streak == old(self).streak,
            final(self).last_word == old(self).last_word,
            final(self).source == old(self).source,
            old(self).wf() ==> final(self).wf(),
    {
        self.words.clear();
    }

    /// The count of consecutive exactly-correct submissions.
    pub fn streak(&self) -> (r: i32)
        ensures
            r == self.streak,
    {
        self.streak
    }

    /// Binds the session to a new source: empties the queue, swaps the
    /// source in, and requests an initial fill.  Fails, leaving the session
    /// untouched, exactly when the new source is key-based with an empty
    /// character set.
    pub fn drain_and_refill(&mut self, source: WordSource) -> (r: Result<
        (),
        ConfigurationError,
    >)
        requires
            old(self).wf(),
        ensures
            final(self).wf(),
            r is Err <==> (source is KeyBased && source.spec_chars().len() == 0),
            r is Err ==> *final(self) == *old(self),
            r is Ok ==> {
                &&& final(self).source == source
                &&& source.generated_batch(INITIAL_FILL as int, final(self).words@)
                &&& final(self).input == old(self).input
                &&& final(self).streak == old(self).streak
                &&& final(self).last_word == old(self).last_word
            },
    {
        match source.generate(INITIAL_FILL) {
            Ok(ws) => {
                self.words = ws;
                self.source = source;
                Ok(())
            },
            Err(e) => Err(e),
        }
    }

    /// Rebinds the session to (a copy of) the given dictionary and replaces
    /// the queue with `amount` words sampled from it.
    pub fn generate_words(&mut self, amount: usize, dictionary: &WordDictionary)
        requires
            old(self).wf(),
        ensures
            final(self).wf(),
            final(self).source is Dictionary,
            final(self).source.spec_words() == dictionary.words@,
            final(self).source.generated_batch(amount as int, final(self).words@),
            final(self).input == old(self).input,
            final(self).streak == old(self).streak,
            final(self).last_word == old(self).last_word,
    {
        let source = WordSource::dictionary(clone_words(&dictionary.words));
        let words = match source.generate(amount) {
            Ok(ws) => ws,
            Err(_) => unreached(),
        };
        self.source = source;
        self.words = words;
    }
}

} // verus!
