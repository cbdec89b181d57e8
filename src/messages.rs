use vstd::prelude::*;
use vstd::string::StringExecFns;
use crate::game::{get_difficulty_number, difficulty_digits, Difficulty, Language};
use crate::word::Word;

verus! {

/// The decimal digits of `n`, most significant first.
pub open spec fn decimal_of(n: nat) -> Seq<char>
    decreases n,
{
    if n < 10 {
        seq![digit_char(n)]
    } else {
        decimal_of(n / 10) + seq![digit_char(n % 10)]
    }
}

pub open spec fn digit_char(d: nat) -> char {
    if d == 0 { '0' } else if d == 1 { '1' } else if d == 2 { '2' } else if d == 3 { '3' }
    else if d == 4 { '4' } else if d == 5 { '5' } else if d == 6 { '6' } else if d == 7 { '7' }
    else if d == 8 { '8' } else { '9' }
}

/// Relies on `ToString::to_string` for `usize`, whose `Display` writes the
/// number in decimal without sign or padding.
#[verifier::external_body]
fn decimal(n: usize) -> (r: String)
    ensures
        r@ == decimal_of(n as nat),
{
    n.to_string()
}

/// Told when a guess does not have the secret word's length.
pub open spec fn invalid_length_text(l: Language, guess: Seq<char>, d: Difficulty) -> Seq<char> {
    match l {
        Language::English => guess + " is an invalid word. Only "@ + difficulty_digits(d)
            + " letters long words are valid guesses."@,
        Language::Portuguese => guess + " é uma palavra inválida. O seu guess deve ter "@
            + difficulty_digits(d) + " caracteres."@,
    }
}

/// Told when a word played before is submitted again.
pub open spec fn repeated_text(l: Language) -> Seq<char> {
    match l {
        Language::English => "Repeat played words in not allowed."@,
        Language::Portuguese => "Repetir palavras já jogadas não é permitido."@,
    }
}

/// Told when a guess is not in the word list.
pub open spec fn not_in_list_text(l: Language, guess: Seq<char>) -> Seq<char> {
    match l {
        Language::English => guess + " is an invalid word or is not present in wordlist."@,
        Language::Portuguese => guess + " é uma palavra inválida ou não está presente na lista de palavras."@,
    }
}

/// Announces whose turn it is in which round.
pub open spec fn turn_text(l: Language, round: nat, name: Seq<char>) -> Seq<char> {
    match l {
        Language::English => "\n"@ + decimal_of(round) + "º round.\nIt's "@ + name + "'s turn!"@,
        Language::Portuguese => "\n"@ + decimal_of(round) + "ª rodada.\nÉ a vez de "@ + name + "!"@,
    }
}

/// Announces the winner and after how many rounds; a single round has a
/// phrase of its own.
pub open spec fn winner_text(l: Language, name: Seq<char>, round: nat) -> Seq<char> {
    match l {
        Language::English => "\n"@ + name + " won the game after "@ + if round == 1 {
            "only one try!"@
        } else {
            decimal_of(round) + " tries!"@
        },
        Language::Portuguese => "\n"@ + name + " venceu o jogo após "@ + if round == 1 {
            "uma única tentativa!"@
        } else {
            decimal_of(round) + " tentativas!"@
        },
    }
}

/// Names the two players.
pub open spec fn players_text(l: Language, first: Seq<char>, second: Seq<char>) -> Seq<char> {
    match l {
        Language::English => "[First player: "@ + first + "] [Second player: "@ + second + "]"@,
        Language::Portuguese => "[Primeiro jogador: "@ + first + "] [Segundo jogador: "@ + second + "]"@,
    }
}

pub fn invalid_length_message(language: Language, guess: &Word, difficulty: Difficulty) -> (r: String)
    ensures
        r@ == invalid_length_text(language, guess@, difficulty),
{
    let mut s = guess.get_word();
    match language {
        Language::English => {
            s.append(" is an invalid word. Only ");
            s.append(get_difficulty_number(&difficulty));
            s.append(" letters long words are valid guesses.");
        },
        Language::Portuguese => {
            s.append(" é uma palavra inválida. O seu guess deve ter ");
            s.append(get_difficulty_number(&difficulty));
            s.append(" caracteres.");
        },
    }
    s
}

pub fn repeated_message(language: Language) -> (r: String)
    ensures
        r@ == repeated_text(language),
{
    match language {
        Language::English => String::from_str("Repeat played words in not allowed."),
        Language::Portuguese => String::from_str("Repetir palavras já jogadas não é permitido."),
    }
}

pub fn not_in_list_message(language: Language, guess: &Word) -> (r: String)
    ensures
        r@ == not_in_list_text(language, guess@),
{
    let mut s = guess.get_word();
    match language {
        Language::English => s.append(" is an invalid word or is not present in wordlist."),
        Language::Portuguese => s.append(" é uma palavra inválida ou não está presente na lista de palavras."),
    }
    s
}

pub fn turn_message(language: Language, round: usize, name: &str) -> (r: String)
    ensures
        r@ == turn_text(language, round as nat, name@),
{
    let mut s = String::from_str("\n");
    s.append(decimal(round).as_str());
    match language {
        Language::English => {
            s.append("º round.\nIt's ");
            s.append(name);
            s.append("'s turn!");
        },
        Language::Portuguese => {
            s.append("ª rodada.\nÉ a vez de ");
            s.append(name);
            s.append("!");
        },
    }
    s
}

pub fn winner_message(language: Language, name: &str, round: usize) -> (r: String)
    ensures
        r@ == winner_text(language, name@, round as nat),
{
    let mut s = String::from_str("\n");
    s.append(name);
    match language {
        Language::English => {
            s.append(" won the game after ");
            if round == 1 {
                s.append("only one try!");
            } else {
                s.append(decimal(round).as_str());
                s.append(" tries!");
            }
        },
        Language::Portuguese => {
            s.append(" venceu o jogo após ");
            if round == 1 {
                s.append("uma única tentativa!");
            } else {
                s.append(decimal(round).as_str());
                s.append(" tentativas!");
            }
        },
    }
    s
}

pub fn players_message(language: Language, first: &str, second: &str) -> (r: String)
    ensures
        r@ == players_text(language, first@, second@),
{
    let mut s = match language {
        Language::English => String::from_str("[First player: "),
        Language::Portuguese => String::from_str("[Primeiro jogador: "),
    };
    s.append(first);
    match language {
        Language::English => s.append("] [Second player: "),
        Language::Portuguese => s.append("] [Segundo jogador: "),
    }
    s.append(second);
    s.append("]");
    s
}

/// The coloured name of a difficulty.
pub open spec fn difficulty_label_text(l: Language, d: Difficulty) -> Seq<char> {
    match (l, d) {
        (Language::English, Difficulty::Easy) => "\x1b[32mEasy\x1b[0m"@,
        (Language::Portuguese, Difficulty::Easy) => "\x1b[32mFácil\x1b[0m"@,
        (_, Difficulty::Normal) => "\x1b[33mNormal\x1b[0m"@,
        (Language::English, Difficulty::Hard) => "\x1b[31mHard\x1b[0m"@,
        (Language::Portuguese, Difficulty::Hard) => "\x1b[31mDifícil\x1b[0m"@,
    }
}

/// Greets the players with the language, the difficulty, the players and the
/// rules; only Hard allows words to be played again.
pub open spec fn welcome_text(l: Language, d: Difficulty, first: Seq<char>, second: Seq<char>) -> Seq<char> {
    match l {
        Language::English => "Welcome to word guessing game!\nLanguage: English\nDifficulty: "@
            + difficulty_label_text(l, d) + "\n\n"@ + players_text(l, first, second)
            + "\n\nRules:\nA "@ + difficulty_digits(d)
            + " letters long word was drawn.\nThe first player to guess correctly win the game.\nRepeat words is "@
            + (if d == Difficulty::Hard { ""@ } else { "not "@ }) + "allowed."@,
        Language::Portuguese => "Bem-vindo ao word guessing game!\nIdioma: Português\nDificuldade: "@
            + difficulty_label_text(l, d) + "\n\n"@ + players_text(l, first, second)
            + "\n\nRegras:\nUma palavra de "@ + difficulty_digits(d)
            + " caracteres foi sorteada.\nO primeiro jogador a adivinhar corretamente vence o jogo.\nRepetir palavras "@
            + (if d == Difficulty::Hard { ""@ } else { "não "@ }) + "é permitido."@,
    }
}

pub fn difficulty_label(language: Language, difficulty: Difficulty) -> (r: &'static str)
    ensures
        r@ == difficulty_label_text(language, difficulty),
{
    match (language, difficulty) {
        (Language::English, Difficulty::Easy) => "\x1b[32mEasy\x1b[0m",
        (Language::Portuguese, Difficulty::Easy) => "\x1b[32mFácil\x1b[0m",
        (_, Difficulty::Normal) => "\x1b[33mNormal\x1b[0m",
        (Language::English, Difficulty::Hard) => "\x1b[31mHard\x1b[0m",
        (Language::Portuguese, Difficulty::Hard) => "\x1b[31mDifícil\x1b[0m",
    }
}

pub fn welcome_message(language: Language, difficulty: Difficulty, first: &str, second: &str) -> (r: String)
    ensures
        r@ == welcome_text(language, difficulty, first@, second@),
{
    let hard = difficulty == Difficulty::Hard;
    let mut s = match language {
        Language::English => String::from_str("Welcome to word guessing game!\nLanguage: English\nDifficulty: "),
        Language::Portuguese => String::from_str("Bem-vindo ao word guessing game!\nIdioma: Português\nDificuldade: "),
    };
    s.append(difficulty_label(language, difficulty));
    s.append("\n\n");
    s.append(players_message(language, first, second).as_str());
    match language {
        Language::English => {
            s.append("\n\nRules:\nA ");
            s.append(get_difficulty_number(&difficulty));
            s.append(" letters long word was drawn.\nThe first player to guess correctly win the game.\nRepeat words is ");
            s.append(if hard { "" } else { "not " });
            s.append("allowed.");
        },
        Language::Portuguese => {
            s.append("\n\nRegras:\nUma palavra de ");
            s.append(get_difficulty_number(&difficulty));
            s.append(" caracteres foi sorteada.\nO primeiro jogador a adivinhar corretamente vence o jogo.\nRepetir palavras ");
            s.append(if hard { "" } else { "não " });
            s.append("é permitido.");
        },
    }
    s
}

} // verus!
