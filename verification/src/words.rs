//! Dictionaries of practice words and the sources that produce them.
//!
//! A [`WordDictionary`] pairs a list of words with the whitespace-separated
//! key rows they are typed on.  A [`WordSource`] is the strategy behind a
//! typing session: either it samples words from such a list, or it
//! synthesizes short pseudo-random words from a key character set.

use vstd::prelude::*;
use vstd::string::StrSliceExecFns;
use crate::random::random_below;
use crate::random::sample_indices;
use crate::text::is_space;
use crate::text::is_space_char;
use crate::text::push_char;

verus! {

/// The error returned when word generation is asked to work from an empty
/// or whitespace-only key character set.
#[derive(Clone, Copy, Debug, PartialEq, Eq, Structural)]
pub struct ConfigurationError {}

/// Stores a dictionary of words and the keys they consist of.
///
/// `keys` is expected to be a whitespace-separated uppercase sequence of
/// key rows.
pub struct WordDictionary {
    pub words: Vec<String>,
    pub keys: String,
}

impl WordDictionary {
    /// Builds a dictionary from a word list and its key rows.
    pub fn new(words: Vec<String>, keys: String) -> (r: WordDictionary)
        ensures
            r.words == words,
            r.keys == keys,
    {
        WordDictionary { words, keys }
    }

    /// The whitespace-separated key rows of this dictionary.
    pub fn keys(&self) -> (r: &str)
        ensures
            r@ == self.keys@,
    {
        self.keys.as_str()
    }

    /// A copy of this dictionary.
    pub fn duplicate(&self) -> (r: WordDictionary)
        ensures
            r.words@ == self.words@,
            r.keys@ == self.keys@,
    {
        WordDictionary { words: clone_words(&self.words), keys: self.keys.clone() }
    }
}

/// A pair of word dictionaries, one per hand.
pub struct LayoutDictionary {
    pub left: WordDictionary,
    pub right: WordDictionary,
}

/// The built-in key rows of the left half of a QWERTY keyboard.
pub open spec fn left_qwerty_keys() -> Seq<char> {
    "QWERT ASDFG ZXCVB"@
}

/// The built-in key rows of the right half of a QWERTY keyboard.
pub open spec fn right_qwerty_keys() -> Seq<char> {
    "YUIOP HJKL; NM,./"@
}

/// What the built-in placeholder dictionary looks like: the QWERTY halves
/// with one filler word per side.
pub open spec fn is_default_dictionary(d: LayoutDictionary) -> bool {
    &&& d.left.keys@ == left_qwerty_keys()
    &&& d.right.keys@ == right_qwerty_keys()
    &&& d.left.words@.len() == 1 && d.left.words@[0]@ == "<space>"@
    &&& d.right.words@.len() == 1 && d.right.words@[0]@ == "<space>"@
}

impl Default for LayoutDictionary {
    /// The placeholder dictionary used until a real word list is handed
    /// over: one filler word per side, on the QWERTY halves.
    fn default() -> (r: LayoutDictionary)
        ensures
            is_default_dictionary(r),
    {
        let mut left_words: Vec<String> = Vec::new();
        left_words.push("<space>".to_owned());
        let mut right_words: Vec<String> = Vec::new();
        right_words.push("<space>".to_owned());
        LayoutDictionary {
            left: WordDictionary { words: left_words, keys: "QWERT ASDFG ZXCVB".to_owned() },
            right: WordDictionary { words: right_words, keys: "YUIOP HJKL; NM,./".to_owned() },
        }
    }
}

/// Whether two dictionaries carry the same words and keys.
pub open spec fn dict_like(a: WordDictionary, b: WordDictionary) -> bool {
    a.words@ == b.words@ && a.keys@ == b.keys@
}

/// Whether two layout dictionaries agree side by side.
pub open spec fn layout_dict_like(a: LayoutDictionary, b: LayoutDictionary) -> bool {
    dict_like(a.left, b.left) && dict_like(a.right, b.right)
}

impl LayoutDictionary {
    /// A copy of both sides.
    pub fn duplicate(&self) -> (r: LayoutDictionary)
        ensures
            layout_dict_like(r, *self),
    {
        LayoutDictionary { left: self.left.duplicate(), right: self.right.duplicate() }
    }
}

/// Word dictionaries for the keyboard layouts the trainer knows about.
pub struct Layouts {
    pub qwerty: LayoutDictionary,
    pub colemak: LayoutDictionary,
}

impl Default for Layouts {
    /// Placeholder dictionaries for every layout.
    fn default() -> (r: Layouts)
        ensures
            is_default_dictionary(r.qwerty),
            is_default_dictionary(r.colemak),
    {
        Layouts { qwerty: LayoutDictionary::default(), colemak: LayoutDictionary::default() }
    }
}

/// Whether some word of `dict` reads as `w`.
pub open spec fn dict_has(dict: Seq<String>, w: Seq<char>) -> bool {
    exists|j: int| 0 <= j < dict.len() && #[trigger] dict[j]@ == w
}

/// Whether the views of the words in `ws` are pairwise distinct.
pub open spec fn distinct_views(ws: Seq<String>) -> bool {
    forall|i: int, j: int| 0 <= i < j < ws.len() ==> ws[i]@ != ws[j]@
}

/// A strategy that produces a batch of practice words: either synthesized
/// from a key character set or sampled from a dictionary.
pub enum WordSource {
    /// Synthesizes pseudo-random words from the de-duplicated, whitespace-
    /// stripped character set of a layout.
    KeyBased { chars: Vec<char> },
    /// Samples words without replacement from a fixed list.
    Dictionary { words: Vec<String> },
}

impl WordSource {
    /// The character set of a key-based source; empty for a dictionary.
    pub open spec fn spec_chars(&self) -> Seq<char> {
        match self {
            WordSource::KeyBased { chars } => chars@,
            WordSource::Dictionary { .. } => Seq::empty(),
        }
    }

    /// The backing word list of a dictionary source; empty for key-based.
    pub open spec fn spec_words(&self) -> Seq<String> {
        match self {
            WordSource::KeyBased { .. } => Seq::empty(),
            WordSource::Dictionary { words } => words@,
        }
    }

    /// A source is well formed when generation from it cannot fail: a
    /// key-based source must have at least one key to draw from.
    pub open spec fn wf(&self) -> bool {
        self is KeyBased ==> self.spec_chars().len() > 0
    }

    /// Whether the source can always hand out at least one word.
    pub open spec fn productive(&self) -> bool {
        match self {
            WordSource::KeyBased { chars } => chars@.len() > 0,
            WordSource::Dictionary { words } => words@.len() > 0,
        }
    }

    /// The constraint a generated word satisfies: a key-based source only
    /// produces words of 3 to 6 characters drawn from its character set;
    /// a dictionary source imposes nothing here.
    pub open spec fn word_ok(&self, w: Seq<char>) -> bool {
        self is KeyBased ==> {
            &&& 3 <= w.len() <= 6
            &&& forall|i: int| 0 <= i < w.len() ==> self.spec_chars().contains(w[i])
        }
    }

    /// What a successful generation of `amount` words from this source
    /// looks like: the batch length, the per-word constraint, and for a
    /// dictionary source membership and distinctness.
    pub open spec fn generated_batch(&self, amount: int, ws: Seq<String>) -> bool {
        match self {
            WordSource::KeyBased { .. } => {
                &&& ws.len() == amount
                &&& forall|i: int| 0 <= i < ws.len() ==> self.word_ok(#[trigger] ws[i]@)
            },
            WordSource::Dictionary { words } => {
                &&& ws.len() == (if amount <= words@.len() {
                    amount
                } else {
                    words@.len() as int
                })
                &&& forall|i: int| 0 <= i < ws.len() ==> dict_has(words@, #[trigger] ws[i]@)
                &&& distinct_views(words@) ==> distinct_views(ws)
            },
        }
    }

    /// Builds a key-based source from whitespace-separated key rows: the
    /// character set is the rows' characters with whitespace stripped and
    /// duplicates removed.
    pub fn key_based(keys: &str) -> (r: WordSource)
        ensures
            r is KeyBased,
            forall|i: int, j: int|
                0 <= i < j < r.spec_chars().len() ==> r.spec_chars()[i] != r.spec_chars()[j],
            forall|c: char|
                #[trigger] r.spec_chars().contains(c) <==> (keys@.contains(c) && !is_space_char(
                    c,
                )),
    {
        let n = keys.unicode_len();
        let mut chars: Vec<char> = Vec::new();
        let mut i: usize = 0;
        while i < n
            invariant
                n == keys@.len(),
                0 <= i <= n,
                forall|p: int, q: int| 0 <= p < q < chars@.len() ==> chars@[p] != chars@[q],
                forall|p: int| 0 <= p < chars@.len() ==> !is_space_char(#[trigger] chars@[p]),
                forall|p: int| 0 <= p < chars@.len() ==> keys@.contains(#[trigger] chars@[p]),
                forall|k: int|
                    0 <= k < i ==> (is_space_char(#[trigger] keys@[k]) || chars@.contains(
                        keys@[k],
                    )),
            decreases n - i,
        {
            let c = keys.get_char(i);
            if !is_space(c) && !contains_char(&chars, c) {
                let ghost previous = chars@;
                chars.push(c);
                proof {
                    assert forall|d: char| previous.contains(d) implies chars@.contains(d) by {
                        lemma_push_contains(previous, c, d);
                    }
                    assert(chars@[previous.len() as int] == c);
                    assert(keys@.contains(c)) by {
                        assert(keys@[i as int] == c);
                    }
                    assert forall|p: int|
                        0 <= p < chars@.len() implies keys@.contains(
                        #[trigger] chars@[p],
                    ) by {
                        if p < previous.len() {
                            assert(chars@[p] == previous[p]);
                        }
                    }
                }
            }
            i = i + 1;
        }
        proof {
            assert forall|c: char|
                keys@.contains(c) && !is_space_char(c) implies chars@.contains(c) by {
                let k = choose|k: int| 0 <= k < keys@.len() && keys@[k] == c;
                assert(is_space_char(keys@[k]) || chars@.contains(keys@[k]));
            }
        }
        WordSource::KeyBased { chars }
    }

    /// Builds a dictionary source over the given word list.
    pub fn dictionary(words: Vec<String>) -> (r: WordSource)
        ensures
            r is Dictionary,
            r.spec_words() == words@,
            r.wf(),
    {
        WordSource::Dictionary { words }
    }

    /// Produces a batch of `amount` practice words.
    ///
    /// A key-based source synthesizes exactly `amount` words, each of 3 to
    /// 6 characters drawn uniformly from its character set; it fails with
    /// [`ConfigurationError`] exactly when the character set is empty.  A
    /// dictionary source samples `amount` words without replacement and
    /// degrades to the whole list when `amount` exceeds it.
    pub fn generate(&self, amount: usize) -> (r: Result<Vec<String>, ConfigurationError>)
        ensures
            r is Err <==> (self is KeyBased && self.spec_chars().len() == 0),
            r matches Ok(ws) ==> self.generated_batch(amount as int, ws@),
    {
        match self {
            WordSource::KeyBased { chars } => {
                if chars.len() == 0 {
                    return Err(ConfigurationError {});
                }
                let mut out: Vec<String> = Vec::new();
                let mut k: usize = 0;
                while k < amount
                    invariant
                        chars@.len() > 0,
                        out@.len() == k,
                        0 <= k <= amount,
                        forall|i: int|
                            0 <= i < out@.len() ==> {
                                &&& 3 <= (#[trigger] out@[i]@).len() <= 6
                                &&& forall|p: int| 0 <= p < out@[i]@.len() ==> chars@.contains(out@[i]@[p])
                            },
                    decreases amount - k,
                {
                    let w = gen_word(chars);
                    out.push(w);
                    k = k + 1;
                }
                proof {
                    assert forall|t: int| 0 <= t < out@.len() implies self.word_ok(
                        #[trigger] out@[t]@,
                    ) by {
                        assert(3 <= out@[t]@.len() <= 6);
                        assert forall|p: int|
                            0 <= p < out@[t]@.len() implies self.spec_chars().contains(
                            out@[t]@[p],
                        ) by {
                            assert(chars@.contains(out@[t]@[p]));
                        }
                    }
                }
                Ok(out)
            },
            WordSource::Dictionary { words } => {
                let n = words.len();
                let take: usize = if amount < n {
                    amount
                } else {
                    n
                };
                let idx = sample_indices(n, take);
                let mut out: Vec<String> = Vec::new();
                let mut i: usize = 0;
                while i < take
                    invariant
                        idx@.len() == take,
                        take <= n,
                        n == words@.len(),
                        forall|t: int| 0 <= t < idx@.len() ==> idx@[t] < n,
                        forall|t: int, u: int| 0 <= t < u < idx@.len() ==> idx@[t] != idx@[u],
                        out@.len() == i,
                        0 <= i <= take,
                        forall|t: int| 0 <= t < i ==> #[trigger] out@[t]@ == words@[idx@[t] as int]@,
                    decreases take - i,
                {
                    out.push(words[idx[i]].clone());
                    i = i + 1;
                }
                proof {
                    assert forall|t: int| 0 <= t < out@.len() implies dict_has(
                        words@,
                        #[trigger] out@[t]@,
                    ) by {
                        assert(words@[idx@[t] as int]@ == out@[t]@);
                    }
                    if distinct_views(words@) {
                        assert forall|t: int, u: int| 0 <= t < u < out@.len() implies out@[t]@
                            != out@[u]@ by {
                            assert(out@[t]@ == words@[idx@[t] as int]@);
                            assert(out@[u]@ == words@[idx@[u] as int]@);
                            if idx@[t] < idx@[u] {
                                assert(words@[idx@[t] as int]@ != words@[idx@[u] as int]@);
                            } else {
                                assert(words@[idx@[u] as int]@ != words@[idx@[t] as int]@);
                            }
                        }
                    }
                }
                Ok(out)
            },
        }
    }
}

/// One pseudo-random practice word: 3 to 6 characters, each drawn from
/// `chars`.
pub(crate) fn gen_word(chars: &Vec<char>) -> (w: String)
    requires
        chars@.len() > 0,
    ensures
        3 <= w@.len() <= 6,
        forall|p: int| 0 <= p < w@.len() ==> chars@.contains(#[trigger] w@[p]),
{
    let len: usize = 3 + random_below(4);
    let mut w = String::new();
    let mut j: usize = 0;
    while j < len
        invariant
            chars@.len() > 0,
            w@.len() == j,
            0 <= j <= len,
            forall|p: int| 0 <= p < w@.len() ==> chars@.contains(#[trigger] w@[p]),
        decreases len - j,
    {
        let idx = random_below(chars.len());
        push_char(&mut w, chars[idx]);
        j = j + 1;
    }
    w
}

proof fn lemma_push_contains(s: Seq<char>, e: char, x: char)
    ensures
        s.push(e).contains(x) <==> (s.contains(x) || x == e),
{
    if s.contains(x) {
        let k = choose|k: int| 0 <= k < s.len() && s[k] == x;
        assert(s.push(e)[k] == x);
    }
    if x == e {
        assert(s.push(e)[s.len() as int] == x);
    }
    if s.push(e).contains(x) {
        let k = choose|k: int| 0 <= k < s.push(e).len() && s.push(e)[k] == x;
        if k < s.len() {
            assert(s[k] == x);
        }
    }
}

/// A copy of the given word list.
pub fn clone_words(words: &Vec<String>) -> (r: Vec<String>)
    ensures
        r@ == words@,
{
    let mut out: Vec<String> = Vec::new();
    let mut i: usize = 0;
    while i < words.len()
        invariant
            0 <= i <= words@.len(),
            out@.len() == i,
            forall|k: int| 0 <= k < i ==> out@[k] == words@[k],
        decreases words@.len() - i,
    {
        out.push(words[i].clone());
        i = i + 1;
    }
    proof {
        assert(out@ =~= words@);
    }
    out
}

/// Whether `v` holds the character `c`.
pub fn contains_char(v: &Vec<char>, c: char) -> (r: bool)
    ensures
        r == v@.contains(c),
{
    let mut i: usize = 0;
    while i < v.len()
        invariant
            0 <= i <= v@.len(),
            forall|k: int| 0 <= k < i ==> v@[k] != c,
        decreases v@.len() - i,
    {
        if v[i] == c {
            return true;
        }
        i = i + 1;
    }
    false
}

} // verus!
