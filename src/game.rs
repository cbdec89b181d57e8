use vstd::prelude::*;
use crate::word::{feedback_of, tolerant_eq, upper_of, LetterStatus, Word};
use crate::wordlist::WordList;

verus! {

/// The difficulty of a game; it fixes the length of the secret word and
/// whether words may be played again.
#[derive(Clone, Copy, Debug, PartialEq, Eq, Structural)]
pub enum Difficulty {
    Easy,
    Normal,
    Hard,
}

/// The language of the game's messages and word list.
#[derive(Clone, Copy, Debug, PartialEq, Eq, Structural)]
pub enum Language {
    English,
    Portuguese,
}

pub open spec fn difficulty_digits(d: Difficulty) -> Seq<char> {
    match d {
        Difficulty::Easy => seq!['6'],
        Difficulty::Normal => seq!['7'],
        Difficulty::Hard => seq!['8'],
    }
}

pub open spec fn word_length_of(d: Difficulty) -> nat {
    match d {
        Difficulty::Easy => 6,
        Difficulty::Normal => 7,
        Difficulty::Hard => 8,
    }
}

pub open spec fn language_text(l: Language) -> Seq<char> {
    match l {
        Language::English => seq!['e', 'n', 'g', 'l', 'i', 's', 'h'],
        Language::Portuguese => seq!['p', 'o', 'r', 't', 'u', 'g', 'u', 'e', 's', 'e'],
    }
}

/// The length of the words of a difficulty, written in decimal.
pub fn get_difficulty_number(difficulty: &Difficulty) -> (r: &'static str)
    ensures
        r@ == difficulty_digits(*difficulty),
{
    match difficulty {
        Difficulty::Easy => {
            proof { reveal_strlit("6"); }
            "6"
        },
        Difficulty::Normal => {
            proof { reveal_strlit("7"); }
            "7"
        },
        Difficulty::Hard => {
            proof { reveal_strlit("8"); }
            "8"
        },
    }
}

/// The length of the words of a difficulty.
pub fn word_length(difficulty: &Difficulty) -> (r: usize)
    ensures
        r == word_length_of(*difficulty),
{
    match difficulty {
        Difficulty::Easy => 6,
        Difficulty::Normal => 7,
        Difficulty::Hard => 8,
    }
}

/// The lower-case name of a language, as word-list resources are keyed.
pub fn get_language_name(language: &Language) -> (r: &'static str)
    ensures
        r@ == language_text(*language),
{
    match language {
        Language::English => {
            proof { reveal_strlit("english"); }
            "english"
        },
        Language::Portuguese => {
            proof { reveal_strlit("portuguese"); }
            "portuguese"
        },
    }
}

/// A player: a name, and the words submitted so far in order of submission.
#[derive(Clone, Debug)]
pub struct Player {
    name: String,
    guessed_words: Vec<Word>,
}

impl View for Player {
    type V = Seq<Seq<char>>;

    /// The texts of the submitted words, oldest first.
    closed spec fn view(&self) -> Seq<Seq<char>> {
        self.guessed_words@.map_values(|w: Word| w@)
    }
}

impl Player {
    pub closed spec fn name_view(&self) -> Seq<char> {
        self.name@
    }

    pub fn name(&self) -> (r: &String)
        ensures
            r@ == self.name_view(),
    {
        &self.name
    }

    pub fn new(name: &str) -> (r: Player)
        ensures
            r.name_view() == name@,
            r@ == Seq::<Seq<char>>::empty(),
    {
        let r = Player { name: name.to_string(), guessed_words: Vec::new() };
        assert(r@ =~= Seq::<Seq<char>>::empty());
        r
    }

    pub fn guess_word(&mut self, word: Word)
        ensures
            final(self).name_view() == old(self).name_view(),
            final(self)@ == old(self)@.push(word@),
    {
        let ghost w = word@;
        self.guessed_words.push(word);
        assert(self@ =~= old(self)@.push(w));
    }

    /// Whether a word of the same text was submitted before.
    pub fn has_guessed_word(&self, word: &Word) -> (r: bool)
        ensures
            r == self@.contains(word@),
    {
        let mut i: usize = 0;
        while i < self.guessed_words.len()
            invariant
                i <= self.guessed_words@.len(),
                self@.len() == self.guessed_words@.len(),
                forall|k: int| 0 <= k < i ==> #[trigger] self@[k] != word@,
            decreases self.guessed_words@.len() - i,
        {
            if self.guessed_words[i].same_text(word) {
                assert(self@[i as int] == word@);
                return true;
            }
            i = i + 1;
        }
        false
    }

    /// The `i`-th word submitted, oldest first.
    pub fn guessed_word(&self, i: usize) -> (r: &Word)
        requires
            i < self@.len(),
        ensures
            r@ == self@[i as int],
    {
        &self.guessed_words[i]
    }

    /// The number of words submitted.
    pub fn guess_count(&self) -> (r: usize)
        ensures
            r == self@.len(),
    {
        self.guessed_words.len()
    }
}

/// Why a game could not be set up.
#[derive(Clone, Copy, Debug, PartialEq, Eq, Structural)]
pub enum GameError {
    /// The word list has no entry to draw the secret word from.
    EmptyList,
}

/// How a submitted guess was judged, without the feedback it carries.
pub enum Verdict {
    InvalidLength,
    Repeated,
    NotInList,
    Miss,
    Win,
}

/// What became of one submitted guess.
#[derive(Clone, Debug)]
pub enum TurnOutcome {
    /// Its length differs from the secret word's; nothing changed.
    InvalidLength,
    /// It was played before in this game, which the difficulty forbids; nothing changed.
    Repeated,
    /// It is not in the word list; it was recorded and the same player goes on.
    NotInList,
    /// It is in the list but is not the secret word: the per-letter feedback;
    /// it was recorded and the turn passed.
    Miss(Vec<LetterStatus>),
    /// It is the secret word: the player whose turn it was has won.
    Win,
}

impl TurnOutcome {
    pub open spec fn verdict(&self) -> Verdict {
        match self {
            TurnOutcome::InvalidLength => Verdict::InvalidLength,
            TurnOutcome::Repeated => Verdict::Repeated,
            TurnOutcome::NotInList => Verdict::NotInList,
            TurnOutcome::Miss(_) => Verdict::Miss,
            TurnOutcome::Win => Verdict::Win,
        }
    }
}

/// The abstract state of a game.
pub struct GameView {
    pub first_name: Seq<char>,
    pub second_name: Seq<char>,
    pub first_history: Seq<Seq<char>>,
    pub second_history: Seq<Seq<char>>,
    pub difficulty: Difficulty,
    pub language: Language,
    pub round: nat,
    /// `true` while it is the first player's turn.
    pub turn: bool,
    pub over: bool,
    pub words: Seq<Seq<char>>,
    pub secret: Seq<char>,
}

impl GameView {
    pub open spec fn wf(self) -> bool {
        &&& self.words.contains(self.secret)
        &&& self.words.no_duplicates()
        &&& self.round >= 1
    }

    /// Whether `g` was submitted before by either player.
    pub open spec fn played(self, g: Seq<char>) -> bool {
        self.first_history.contains(g) || self.second_history.contains(g)
    }

    /// The name of the player whose turn it is.
    pub open spec fn active_name(self) -> Seq<char> {
        if self.turn { self.first_name } else { self.second_name }
    }
}

/// How guess `g` is judged in state `v`: the length gate, then the repeat gate
/// (not under Hard), then list membership by exact text, then gameplay equality
/// with the secret word.
pub open spec fn verdict_of(v: GameView, g: Seq<char>) -> Verdict {
    if g.len() != v.secret.len() {
        Verdict::InvalidLength
    } else if v.difficulty != Difficulty::Hard && v.played(g) {
        Verdict::Repeated
    } else if !v.words.contains(g) {
        Verdict::NotInList
    } else if tolerant_eq(g, v.secret) {
        Verdict::Win
    } else {
        Verdict::Miss
    }
}

/// `v` with `g` appended to the history of the player whose turn it is.
pub open spec fn record(v: GameView, g: Seq<char>) -> GameView {
    if v.turn {
        GameView { first_history: v.first_history.push(g), ..v }
    } else {
        GameView { second_history: v.second_history.push(g), ..v }
    }
}

/// The state after guess `g` is submitted in state `v`.
pub open spec fn step(v: GameView, g: Seq<char>) -> GameView {
    match verdict_of(v, g) {
        Verdict::InvalidLength => v,
        Verdict::Repeated => v,
        Verdict::NotInList => record(v, g),
        Verdict::Win => GameView { over: true, ..record(v, g) },
        Verdict::Miss => GameView {
            turn: !v.turn,
            round: if v.turn { v.round } else { v.round + 1 },
            ..record(v, g)
        },
    }
}

/// What `str::trim_end` makes of a text.
pub uninterp spec fn trimmed_end_of(s: Seq<char>) -> Seq<char>;

/// Relies on `str::trim_end`: trailing whitespace removed.
#[verifier::external_body]
fn trim_end(s: &str) -> (r: &str)
    ensures
        r@ == trimmed_end_of(s@),
{
    s.trim_end()
}

/// The guess that a line of input stands for.
pub open spec fn guess_of(line: Seq<char>) -> Seq<char> {
    upper_of(trimmed_end_of(line))
}

/// A game between two players, refereed by the host.
#[derive(Clone, Debug)]
pub struct Game {
    first_player: Player,
    second_player: Player,
    difficulty: Difficulty,
    language: Language,
    round: usize,
    turn: bool,
    over: bool,
    wordlist: WordList,
    selected_word: Word,
}

impl View for Game {
    type V = GameView;

    closed spec fn view(&self) -> GameView {
        GameView {
            first_name: self.first_player.name_view(),
            second_name: self.second_player.name_view(),
            first_history: self.first_player@,
            second_history: self.second_player@,
            difficulty: self.difficulty,
            language: self.language,
            round: self.round as nat,
            turn: self.turn,
            over: self.over,
            words: self.wordlist@,
            secret: self.selected_word@,
        }
    }
}

impl Game {
    /// Sets up a game whose secret word is drawn at random from `wordlist`;
    /// fails exactly when the list is empty.
    pub fn new(
        first_player_name: &str,
        second_player_name: &str,
        difficulty: Difficulty,
        language: Language,
        wordlist: WordList,
    ) -> (r: Result<Game, GameError>)
        requires
            wordlist.wf(),
        ensures
            r is Err <==> wordlist@.len() == 0,
            r matches Err(e) ==> e == GameError::EmptyList,
            r matches Ok(g) ==> Game::is_initial(g@, first_player_name@, second_player_name@, difficulty, language, wordlist@),
    {
        let choice = wordlist.pick_random();
        Game::with_secret(first_player_name, second_player_name, difficulty, language, wordlist, choice)
    }

    /// A game as it starts: round 1, first player's turn, no guesses yet, a
    /// secret word from the list.
    pub open spec fn is_initial(
        v: GameView,
        first: Seq<char>,
        second: Seq<char>,
        difficulty: Difficulty,
        language: Language,
        words: Seq<Seq<char>>,
    ) -> bool {
        &&& v.wf()
        &&& v.first_name == first
        &&& v.second_name == second
        &&& v.first_history.len() == 0
        &&& v.second_history.len() == 0
        &&& v.difficulty == difficulty
        &&& v.language == language
        &&& v.round == 1
        &&& v.turn
        &&& !v.over
        &&& v.words == words
    }

    /// Sets up a game whose secret word is entry `choice` of `wordlist`, as
    /// drawn by `WordList::pick_random`.
    pub fn with_secret(
        first_player_name: &str,
        second_player_name: &str,
        difficulty: Difficulty,
        language: Language,
        wordlist: WordList,
        choice: Option<usize>,
    ) -> (r: Result<Game, GameError>)
        requires
            wordlist.wf(),
            choice is None <==> wordlist@.len() == 0,
            choice matches Some(i) ==> i < wordlist@.len(),
        ensures
            r is Err <==> wordlist@.len() == 0,
            r matches Err(e) ==> e == GameError::EmptyList,
            r matches Ok(g) ==> Game::is_initial(g@, first_player_name@, second_player_name@, difficulty, language, wordlist@),
            r matches Ok(g) ==> g@.secret == wordlist@[choice->0 as int],
    {
        match choice {
            None => Err(GameError::EmptyList),
            Some(i) => {
                let selected_word = wordlist.get(i).duplicate();
                Ok(Game {
                    first_player: Player::new(first_player_name),
                    second_player: Player::new(second_player_name),
                    difficulty,
                    language,
                    round: 1,
                    turn: true,
                    over: false,
                    wordlist,
                    selected_word,
                })
            },
        }
    }
}

impl Game {
    pub open spec fn wf(&self) -> bool {
        self@.wf()
    }

    fn add_guessed_word(&mut self, word: Word)
        ensures
            final(self)@ == record(old(self)@, word@),
    {
        if self.turn {
            self.first_player.guess_word(word);
        } else {
            self.second_player.guess_word(word);
        }
    }

    fn next_play(&mut self)
        requires
            old(self).round < usize::MAX,
        ensures
            final(self)@ == (GameView {
                turn: !old(self)@.turn,
                round: if old(self)@.turn { old(self)@.round } else { old(self)@.round + 1 },
                ..old(self)@
            }),
    {
        self.turn = !self.turn;
        if self.turn {
            self.round = self.round + 1;
        }
    }

    /// Judges one line of input as the guess of the player whose turn it is,
    /// and moves the game on accordingly.
    pub fn play_turn(&mut self, line: &str) -> (r: TurnOutcome)
        requires
            old(self).wf(),
            !old(self)@.over,
            old(self)@.round < usize::MAX,
        ensures
            final(self).wf(),
            final(self)@ == step(old(self)@, guess_of(line@)),
            r.verdict() == verdict_of(old(self)@, guess_of(line@)),
            r matches TurnOutcome::Miss(fb) ==> fb@ == feedback_of(guess_of(line@), old(self)@.secret),
    {
        let guess = Word::new(trim_end(line));
        if guess.length() != self.selected_word.length() {
            return TurnOutcome::InvalidLength;
        }
        if self.difficulty != Difficulty::Hard && (self.first_player.has_guessed_word(&guess)
            || self.second_player.has_guessed_word(&guess)) {
            return TurnOutcome::Repeated;
        }
        if !self.wordlist.contains(&guess) {
            self.add_guessed_word(guess);
            TurnOutcome::NotInList
        } else if guess.matches(&self.selected_word) {
            self.add_guessed_word(guess);
            self.over = true;
            TurnOutcome::Win
        } else {
            let feedback = guess.feedback(&self.selected_word);
            self.add_guessed_word(guess);
            self.next_play();
            TurnOutcome::Miss(feedback)
        }
    }

    pub fn round(&self) -> (r: usize)
        ensures
            r == self@.round,
    {
        self.round
    }

    /// `true` while it is the first player's turn.
    pub fn turn(&self) -> (r: bool)
        ensures
            r == self@.turn,
    {
        self.turn
    }

    /// Whether a guess has matched the secret word.
    pub fn is_over(&self) -> (r: bool)
        ensures
            r == self@.over,
    {
        self.over
    }

    pub fn first_player(&self) -> (r: &Player)
        ensures
            r.name_view() == self@.first_name,
            r@ == self@.first_history,
    {
        &self.first_player
    }

    pub fn second_player(&self) -> (r: &Player)
        ensures
            r.name_view() == self@.second_name,
            r@ == self@.second_history,
    {
        &self.second_player
    }

    /// The player whose turn it is; once the game is over, the winner.
    pub fn active_player(&self) -> (r: &Player)
        ensures
            r.name_view() == self@.active_name(),
    {
        if self.turn {
            &self.first_player
        } else {
            &self.second_player
        }
    }

    pub fn selected_word(&self) -> (r: &Word)
        ensures
            r@ == self@.secret,
    {
        &self.selected_word
    }

    pub fn difficulty(&self) -> (r: Difficulty)
        ensures
            r == self@.difficulty,
    {
        self.difficulty
    }

    pub fn language(&self) -> (r: Language)
        ensures
            r == self@.language,
    {
        self.language
    }

    pub fn wordlist(&self) -> (r: &WordList)
        ensures
            r@ == self@.words,
    {
        &self.wordlist
    }
}

/// Every step keeps the game well formed.
pub proof fn lemma_step_wf(v: GameView, g: Seq<char>)
    requires
        v.wf(),
    ensures
        step(v, g).wf(),
        step(v, g).words == v.words,
        step(v, g).secret == v.secret,
{
}

/// A guess whose length differs from the secret word's is rejected: it does
/// not win, is not recorded, and the turn stays.
pub proof fn lemma_length_gate(v: GameView, g: Seq<char>)
    requires
        g.len() != v.secret.len(),
    ensures
        verdict_of(v, g) == Verdict::InvalidLength,
        step(v, g) == v,
{
}

/// A word of the right length that either player has played before is
/// rejected, and changes nothing, unless the difficulty is Hard; under Hard
/// it is judged like any other word.
pub proof fn lemma_repeat_gate(v: GameView, g: Seq<char>)
    requires
        g.len() == v.secret.len(),
        v.played(g),
    ensures
        v.difficulty != Difficulty::Hard ==> verdict_of(v, g) == Verdict::Repeated && step(v, g) == v,
        v.difficulty == Difficulty::Hard ==> verdict_of(v, g) != Verdict::Repeated,
{
}

/// Under a difficulty other than Hard, a word that was just recorded is
/// rejected when submitted again, by either player.
pub proof fn lemma_resubmission_rejected(v: GameView, g: Seq<char>)
    requires
        v.difficulty != Difficulty::Hard,
        verdict_of(v, g) == Verdict::NotInList || verdict_of(v, g) == Verdict::Miss,
    ensures
        verdict_of(step(v, g), g) == Verdict::Repeated,
        step(step(v, g), g) == step(v, g),
{
    let w = step(v, g);
    if v.turn {
        assert(w.first_history.last() == g);
        assert(w.first_history.contains(g));
    } else {
        assert(w.second_history.last() == g);
        assert(w.second_history.contains(g));
    }
}

/// Submitting the secret word itself, when it passes the repeat gate, ends
/// the game: the player whose turn it was wins, and the round stays.
pub proof fn lemma_win(v: GameView)
    requires
        v.wf(),
        v.difficulty == Difficulty::Hard || !v.played(v.secret),
    ensures
        verdict_of(v, v.secret) == Verdict::Win,
        step(v, v.secret).over,
        step(v, v.secret).active_name() == v.active_name(),
        step(v, v.secret).round == v.round,
{
}

/// The round grows by one exactly when the turn passes back to the first
/// player, and stays otherwise.
pub proof fn lemma_round_count(v: GameView, g: Seq<char>)
    ensures
        step(v, g).round == if step(v, g).turn && !v.turn { v.round + 1 } else { v.round },
        !step(v, g).turn ==> step(v, g).round == v.round,
{
}

/// A word list with exactly one entry always gives a game, whose secret word
/// is that entry.
pub proof fn lemma_single_entry(
    words: Seq<Seq<char>>,
    v: GameView,
    first: Seq<char>,
    second: Seq<char>,
    difficulty: Difficulty,
    language: Language,
)
    requires
        words.len() == 1,
        Game::is_initial(v, first, second, difficulty, language, words),
    ensures
        words.len() != 0,
        v.secret == words[0],
{
}

} // verus!
