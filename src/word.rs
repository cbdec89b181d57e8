use vstd::prelude::*;
use vstd::string::StrSliceExecFns;

verus! {

/// The letter a character folds to when accents are ignored: vowels with
/// acute, grave, circumflex, tilde or diaeresis marks become their base
/// letter, and the cedilla becomes C; case is kept.
pub open spec fn base_letter(c: char) -> char {
    match c {
        'á' | 'à' | 'â' | 'ã' => 'a',
        'Á' | 'À' | 'Â' | 'Ã' => 'A',
        'é' | 'è' | 'ê' => 'e',
        'É' | 'È' | 'Ê' => 'E',
        'í' | 'ì' | 'î' => 'i',
        'Í' | 'Ì' | 'Î' => 'I',
        'ó' | 'ò' | 'ô' | 'õ' => 'o',
        'Ó' | 'Ò' | 'Ô' | 'Õ' => 'O',
        'ú' | 'ù' | 'û' | 'ü' => 'u',
        'Ú' | 'Ù' | 'Û' | 'Ü' => 'U',
        'ç' => 'c',
        'Ç' => 'C',
        _ => c,
    }
}

/// Two texts match when they have the same number of characters and agree
/// position by position once accents are folded away.
pub open spec fn tolerant_eq(a: Seq<char>, b: Seq<char>) -> bool {
    &&& a.len() == b.len()
    &&& forall|i: int| 0 <= i < a.len() ==> #[trigger] base_letter(a[i]) == base_letter(b[i])
}

/// What `str::to_uppercase` makes of a text.
pub uninterp spec fn upper_of(s: Seq<char>) -> Seq<char>;

/// Relies on `str::to_uppercase`: its result depends on the characters alone.
#[verifier::external_body]
fn uppercase(s: &str) -> (r: String)
    ensures
        r@ == upper_of(s@),
{
    s.to_uppercase()
}

pub fn normalize_char(c: char) -> (r: char)
    ensures
        r == base_letter(c),
{
    match c {
        'á' | 'à' | 'â' | 'ã' => 'a',
        'Á' | 'À' | 'Â' | 'Ã' => 'A',
        'é' | 'è' | 'ê' => 'e',
        'É' | 'È' | 'Ê' => 'E',
        'í' | 'ì' | 'î' => 'i',
        'Í' | 'Ì' | 'Î' => 'I',
        'ó' | 'ò' | 'ô' | 'õ' => 'o',
        'Ó' | 'Ò' | 'Ô' | 'Õ' => 'O',
        'ú' | 'ù' | 'û' | 'ü' => 'u',
        'Ú' | 'Ù' | 'Û' | 'Ü' => 'U',
        'ç' => 'c',
        'Ç' => 'C',
        _ => c,
    }
}

pub fn letters_are_equal(first_letter: char, second_letter: char) -> (r: bool)
    ensures
        r == (base_letter(first_letter) == base_letter(second_letter)),
{
    normalize_char(first_letter) == normalize_char(second_letter)
}

/// How one letter of a guess relates to the secret word.
#[derive(Clone, Copy, Debug, PartialEq, Eq, Structural)]
pub enum LetterStatus {
    /// The secret word has this letter at this very position.
    Exact,
    /// The secret word has this letter, at another position.
    Present,
    /// The secret word does not have this letter.
    Absent,
}

/// Whether the letter `c` occurs anywhere in `s`, accents ignored.
pub open spec fn occurs_in(c: char, s: Seq<char>) -> bool {
    exists|j: int| 0 <= j < s.len() && #[trigger] base_letter(s[j]) == base_letter(c)
}

/// The status of the letter at position `i` of guess `g` against secret `s`.
pub open spec fn status_at(g: Seq<char>, s: Seq<char>, i: int) -> LetterStatus {
    if i < s.len() && base_letter(g[i]) == base_letter(s[i]) {
        LetterStatus::Exact
    } else if occurs_in(g[i], s) {
        LetterStatus::Present
    } else {
        LetterStatus::Absent
    }
}

/// The feedback for guess `g` against secret `s`: one status per letter of `g`.
pub open spec fn feedback_of(g: Seq<char>, s: Seq<char>) -> Seq<LetterStatus> {
    Seq::new(g.len(), |i: int| status_at(g, s, i))
}

/// A word of the game: its text, stored upper-cased.
#[derive(Clone, Debug)]
pub struct Word {
    word: String,
}

impl View for Word {
    type V = Seq<char>;

    closed spec fn view(&self) -> Seq<char> {
        self.word@
    }
}

impl Word {
    pub fn new(word: &str) -> (r: Word)
        ensures
            r@ == upper_of(word@),
    {
        Word { word: uppercase(word) }
    }

    /// The number of characters (not bytes).
    pub fn length(&self) -> (r: usize)
        ensures
            r == self@.len(),
    {
        self.word.as_str().unicode_len()
    }

    /// The stored, upper-cased text.
    pub fn get_word(&self) -> (r: String)
        ensures
            r@ == self@,
    {
        self.word.clone()
    }

    /// A new word with the same text.
    pub fn duplicate(&self) -> (r: Word)
        ensures
            r@ == self@,
    {
        Word { word: self.word.clone() }
    }

    /// Identity of the text itself, as used for list membership and history.
    pub fn same_text(&self, other: &Word) -> (r: bool)
        ensures
            r == (self@ == other@),
    {
        self.word == other.word
    }

    /// Gameplay equality: same length and the same letters once accents are
    /// folded away.
    pub fn matches(&self, other: &Word) -> (r: bool)
        ensures
            r == tolerant_eq(self@, other@),
    {
        let a = self.word.as_str();
        let b = other.word.as_str();
        let n = a.unicode_len();
        if n != b.unicode_len() {
            return false;
        }
        let mut i: usize = 0;
        while i < n
            invariant
                n == a@.len(),
                n == b@.len(),
                a@ == self@,
                b@ == other@,
                i <= n,
                forall|k: int| 0 <= k < i ==> #[trigger] base_letter(a@[k]) == base_letter(b@[k]),
            decreases n - i,
        {
            if !letters_are_equal(a.get_char(i), b.get_char(i)) {
                return false;
            }
            i = i + 1;
        }
        true
    }

    /// Per-letter feedback of this word against the secret word.
    pub fn feedback(&self, secret: &Word) -> (r: Vec<LetterStatus>)
        ensures
            r@ == feedback_of(self@, secret@),
    {
        let g = self.word.as_str();
        let s = secret.word.as_str();
        let n = g.unicode_len();
        let m = s.unicode_len();
        let mut out: Vec<LetterStatus> = Vec::new();
        let mut i: usize = 0;
        while i < n
            invariant
                n == g@.len(),
                m == s@.len(),
                g@ == self@,
                s@ == secret@,
                i <= n,
                out@.len() == i,
                forall|k: int| 0 <= k < i ==> #[trigger] out@[k] == status_at(g@, s@, k),
            decreases n - i,
        {
            let c = g.get_char(i);
            let status = if i < m && letters_are_equal(c, s.get_char(i)) {
                LetterStatus::Exact
            } else if letter_occurs(c, s) {
                LetterStatus::Present
            } else {
                LetterStatus::Absent
            };
            out.push(status);
            i = i + 1;
        }
        assert(out@ =~= feedback_of(self@, secret@));
        out
    }
}

fn letter_occurs(c: char, s: &str) -> (r: bool)
    ensures
        r == occurs_in(c, s@),
{
    let m = s.unicode_len();
    let mut j: usize = 0;
    while j < m
        invariant
            m == s@.len(),
            j <= m,
            forall|k: int| 0 <= k < j ==> #[trigger] base_letter(s@[k]) != base_letter(c),
        decreases m - j,
    {
        if letters_are_equal(s.get_char(j), c) {
            return true;
        }
        j = j + 1;
    }
    false
}

impl PartialEq for Word {
    fn eq(&self, other: &Word) -> (r: bool) {
        self.matches(other)
    }
}

impl vstd::std_specs::cmp::PartialEqSpecImpl for Word {
    open spec fn obeys_eq_spec() -> bool {
        true
    }

    open spec fn eq_spec(&self, other: &Word) -> bool {
        tolerant_eq(self@, other@)
    }
}

/// Words of different lengths never match; words of equal length whose
/// letters agree position by position once accents are folded always match.
pub proof fn lemma_tolerant_equality(a: Seq<char>, b: Seq<char>)
    ensures
        a.len() != b.len() ==> !tolerant_eq(a, b),
        (a.len() == b.len() && (forall|i: int| 0 <= i < a.len() ==> base_letter(a[i]) == base_letter(b[i])))
            ==> tolerant_eq(a, b),
{
}

} // verus!
