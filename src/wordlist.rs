use vstd::prelude::*;
use rand::seq::IteratorRandom;
use crate::word::{upper_of, Word};

verus! {

/// What `str::lines` makes of a text: its lines, without line terminators.
pub uninterp spec fn lines_of(s: Seq<char>) -> Seq<Seq<char>>;

/// What `str::trim` makes of a text.
pub uninterp spec fn trimmed_of(s: Seq<char>) -> Seq<char>;

/// Relies on `str::lines`: the lines of a text, depending on its characters alone.
#[verifier::external_body]
fn split_lines(s: &str) -> (r: Vec<String>)
    ensures
        r@.len() == lines_of(s@).len(),
        forall|i: int| 0 <= i < r@.len() ==> #[trigger] r@[i]@ == lines_of(s@)[i],
{
    s.lines().map(String::from).collect()
}

/// Relies on `str::trim`: leading and trailing whitespace removed.
#[verifier::external_body]
fn trim(s: &str) -> (r: &str)
    ensures
        r@ == trimmed_of(s@),
{
    s.trim()
}

/// Relies on `IteratorRandom::choose` of rand over `0..n`: `None` exactly
/// when the range is empty, else some index below `n`.
#[verifier::external_body]
fn choose_index(n: usize) -> (r: Option<usize>)
    ensures
        r is None <==> n == 0,
        r matches Some(i) ==> i < n,
{
    (0..n).choose(&mut rand::thread_rng())
}

/// The entry that line `line` of a word-list text stands for.
pub open spec fn entry_of(line: Seq<char>) -> Seq<char> {
    upper_of(trimmed_of(line))
}

/// The set of entries of a word-list text: one per line, trimmed and upper-cased.
pub open spec fn entries_of(text: Seq<char>) -> Set<Seq<char>> {
    Set::new(|w: Seq<char>| exists|i: int| 0 <= i < lines_of(text).len() && w == #[trigger] entry_of(lines_of(text)[i]))
}

/// The words that a game may use: unique by text, order irrelevant.
#[derive(Clone, Debug)]
pub struct WordList {
    words: Vec<Word>,
}

impl View for WordList {
    type V = Seq<Seq<char>>;

    closed spec fn view(&self) -> Seq<Seq<char>> {
        self.words@.map_values(|w: Word| w@)
    }
}

impl WordList {
    /// No text stands twice in the list.
    pub open spec fn wf(&self) -> bool {
        self@.no_duplicates()
    }

    /// The list holds exactly the entries of `text`, each once.
    pub open spec fn is_loaded_from(&self, text: Seq<char>) -> bool {
        &&& self.wf()
        &&& self@.to_set() == entries_of(text)
    }

    pub fn new() -> (r: WordList)
        ensures
            r@ == Seq::<Seq<char>>::empty(),
            r.wf(),
    {
        WordList { words: Vec::new() }
    }

    pub fn len(&self) -> (r: usize)
        ensures
            r == self@.len(),
    {
        self.words.len()
    }

    pub fn get(&self, i: usize) -> (r: &Word)
        requires
            i < self@.len(),
        ensures
            r@ == self@[i as int],
    {
        &self.words[i]
    }

    /// Membership by exact text.
    pub fn contains(&self, candidate: &Word) -> (r: bool)
        ensures
            r == self@.contains(candidate@),
    {
        let mut i: usize = 0;
        while i < self.words.len()
            invariant
                i <= self.words@.len(),
                self@.len() == self.words@.len(),
                forall|k: int| 0 <= k < i ==> #[trigger] self@[k] != candidate@,
            decreases self.words@.len() - i,
        {
            if self.words[i].same_text(candidate) {
                assert(self@[i as int] == candidate@);
                return true;
            }
            i = i + 1;
        }
        false
    }

    /// Adds a word unless its text is already there.
    pub fn insert(&mut self, word: Word)
        requires
            old(self).wf(),
        ensures
            final(self).wf(),
            old(self)@.contains(word@) ==> final(self)@ == old(self)@,
            !old(self)@.contains(word@) ==> final(self)@ == old(self)@.push(word@),
    {
        if !self.contains(&word) {
            let ghost w = word@;
            self.words.push(word);
            assert(self@ =~= old(self)@.push(w));
            assert forall|a: int, b: int| 0 <= a < b < self@.len() implies self@[a] != self@[b] by {
                if b == self@.len() - 1 {
                    assert(self@[b] == w);
                    assert(old(self)@[a] == self@[a]);
                }
            }
        }
    }

    /// Builds the list from a text holding one word per line; each line is
    /// trimmed and upper-cased, and repeated entries are kept once.
    pub fn load(text: &str) -> (r: WordList)
        ensures
            r.is_loaded_from(text@),
    {
        let lines = split_lines(text);
        let mut list = WordList::new();
        let mut i: usize = 0;
        while i < lines.len()
            invariant
                i <= lines@.len(),
                lines@.len() == lines_of(text@).len(),
                forall|k: int| 0 <= k < lines@.len() ==> #[trigger] lines@[k]@ == lines_of(text@)[k],
                list.wf(),
                forall|w: Seq<char>| list@.contains(w) <==>
                    exists|k: int| 0 <= k < i && w == #[trigger] entry_of(lines_of(text@)[k]),
            decreases lines@.len() - i,
        {
            let word = Word::new(trim(lines[i].as_str()));
            proof {
                assert(word@ == entry_of(lines_of(text@)[i as int]));
            }
            let ghost before = list@;
            list.insert(word);
            proof {
                assert forall|w: Seq<char>| list@.contains(w) <==>
                    exists|k: int| 0 <= k < i + 1 && w == #[trigger] entry_of(lines_of(text@)[k]) by {
                    if list@.contains(w) && !before.contains(w) {
                        assert(list@ == before.push(word@));
                        assert(w == word@);
                    }
                    if exists|k: int| 0 <= k < i + 1 && w == #[trigger] entry_of(lines_of(text@)[k]) {
                        let k = choose|k: int| 0 <= k < i + 1 && w == #[trigger] entry_of(lines_of(text@)[k]);
                        if k < i {
                            assert(before.contains(w));
                            let j = before.index_of(w);
                            assert(list@[j] == w);
                        } else {
                            assert(w == word@);
                            if !before.contains(w) {
                                assert(list@[before.len() as int] == w);
                            }
                        }
                    }
                }
            }
            i = i + 1;
        }
        assert(list@.to_set() =~= entries_of(text@));
        list
    }

    /// Draws one entry at random; `None` exactly when the list is empty.
    pub fn pick_random(&self) -> (r: Option<usize>)
        ensures
            r is None <==> self@.len() == 0,
            r matches Some(i) ==> i < self@.len(),
    {
        choose_index(self.words.len())
    }
}

/// Loading the same text twice gives lists with the same entries.
pub proof fn lemma_load_idempotent(a: WordList, b: WordList, text: Seq<char>)
    requires
        a.is_loaded_from(text),
        b.is_loaded_from(text),
    ensures
        a@.to_set() == b@.to_set(),
        forall|w: Seq<char>| a@.contains(w) <==> b@.contains(w),
{
    assert forall|w: Seq<char>| a@.contains(w) <==> b@.contains(w) by {
        assert(a@.to_set().contains(w) == a@.contains(w));
        assert(b@.to_set().contains(w) == b@.contains(w));
    }
}

} // verus!
