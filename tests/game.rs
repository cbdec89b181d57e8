use word_duel::word::LetterStatus::{Exact, Present};
use word_duel::game::{
    get_difficulty_number, get_language_name, word_length, Difficulty, Game, GameError, Language,
    Player, TurnOutcome,
};
use word_duel::word::Word;
use word_duel::wordlist::WordList;

fn game_with(text: &str, secret: usize, difficulty: Difficulty) -> Game {
    let list = WordList::load(text);
    Game::with_secret("Ana", "Bia", difficulty, Language::English, list, Some(secret)).unwrap()
}

#[test]
fn difficulty_numbers_and_lengths() {
    assert_eq!(get_difficulty_number(&Difficulty::Easy), "6");
    assert_eq!(get_difficulty_number(&Difficulty::Normal), "7");
    assert_eq!(get_difficulty_number(&Difficulty::Hard), "8");
    assert_eq!(word_length(&Difficulty::Easy), 6);
    assert_eq!(word_length(&Difficulty::Normal), 7);
    assert_eq!(word_length(&Difficulty::Hard), 8);
}

#[test]
fn language_names() {
    assert_eq!(get_language_name(&Language::English), "english");
    assert_eq!(get_language_name(&Language::Portuguese), "portuguese");
}

#[test]
fn player_history() {
    let mut p = Player::new("Ana");
    assert_eq!(p.name(), "Ana");
    assert!(!p.has_guessed_word(&Word::new("alfa")));
    p.guess_word(Word::new("alfa"));
    assert!(p.has_guessed_word(&Word::new("ALFA")));
    assert!(!p.has_guessed_word(&Word::new("álfa")));
    assert_eq!(p.guess_count(), 1);
}

#[test]
fn empty_list_cannot_start_a_game() {
    let r = Game::new("Ana", "Bia", Difficulty::Normal, Language::English, WordList::load(""));
    assert_eq!(r.err(), Some(GameError::EmptyList));
}

#[test]
fn single_entry_list_gives_that_word() {
    for _ in 0..20 {
        let list = WordList::load("gardens\n");
        let g = Game::new("Ana", "Bia", Difficulty::Normal, Language::English, list).unwrap();
        assert_eq!(g.selected_word().get_word(), "GARDENS");
    }
}

#[test]
fn new_game_starts_at_round_one() {
    let g = Game::new("Ana", "Bia", Difficulty::Easy, Language::Portuguese, WordList::load("alfa\nbeta\n")).unwrap();
    assert_eq!(g.round(), 1);
    assert!(g.turn());
    assert!(!g.is_over());
    assert_eq!(g.first_player().name(), "Ana");
    assert_eq!(g.second_player().name(), "Bia");
    assert_eq!(g.difficulty(), Difficulty::Easy);
    assert_eq!(g.language(), Language::Portuguese);
    assert_eq!(g.wordlist().len(), 2);
    assert!(g.wordlist().contains(g.selected_word()));
}

#[test]
fn scenario_not_in_list_then_miss_then_win() {
    let mut g = game_with("GARDENS\nDANGERS\n", 0, Difficulty::Normal);
    assert!(matches!(g.play_turn("GARDENX"), TurnOutcome::NotInList));
    assert!(g.turn());
    assert_eq!(g.round(), 1);
    assert_eq!(g.first_player().guess_count(), 1);
    match g.play_turn("dangers\n") {
        TurnOutcome::Miss(fb) => {
            assert_eq!(fb, vec![Present, Exact, Present, Present, Exact, Present, Exact]);
        }
        other => panic!("expected a miss, got {:?}", other),
    }
    assert!(!g.turn());
    assert_eq!(g.round(), 1);
    assert!(matches!(g.play_turn("GARDENS"), TurnOutcome::Win));
    assert!(g.is_over());
    assert!(!g.turn());
    assert_eq!(g.active_player().name(), "Bia");
    assert_eq!(g.round(), 1);
}

#[test]
fn length_gate_rejects_and_keeps_state() {
    let mut g = game_with("GARDENS\nDANGERS\n", 0, Difficulty::Normal);
    assert!(matches!(g.play_turn("GARDEN"), TurnOutcome::InvalidLength));
    assert!(matches!(g.play_turn("GARDENSS"), TurnOutcome::InvalidLength));
    assert!(g.turn());
    assert!(!g.is_over());
    assert_eq!(g.round(), 1);
    assert_eq!(g.first_player().guess_count(), 0);
}

#[test]
fn trailing_whitespace_is_ignored() {
    let mut g = game_with("GARDENS\nDANGERS\n", 0, Difficulty::Normal);
    assert!(matches!(g.play_turn("gardens \r\n"), TurnOutcome::Win));
}

#[test]
fn repeat_rejected_below_hard() {
    let mut g = game_with("GARDENS\nDANGERS\n", 0, Difficulty::Normal);
    assert!(matches!(g.play_turn("DANGERS"), TurnOutcome::Miss(_)));
    assert!(matches!(g.play_turn("dangers"), TurnOutcome::Repeated));
    assert!(!g.turn());
    assert_eq!(g.second_player().guess_count(), 0);
    assert!(matches!(g.play_turn("GARDENX"), TurnOutcome::NotInList));
    assert!(matches!(g.play_turn("GARDENX"), TurnOutcome::Repeated));
}

#[test]
fn repeat_allowed_under_hard() {
    let mut g = game_with("GARDENSS\nDANGERSS\n", 0, Difficulty::Hard);
    assert!(matches!(g.play_turn("DANGERSS"), TurnOutcome::Miss(_)));
    assert!(matches!(g.play_turn("DANGERSS"), TurnOutcome::Miss(_)));
    assert!(g.turn());
    assert_eq!(g.round(), 2);
    assert_eq!(g.first_player().guess_count(), 1);
    assert_eq!(g.second_player().guess_count(), 1);
}

#[test]
fn round_grows_when_turn_returns_to_first_player() {
    let mut g = game_with("AAAAAAA\nBBBBBBB\nCCCCCCC\nDDDDDDD\nEEEEEEE\n", 0, Difficulty::Normal);
    assert!(matches!(g.play_turn("BBBBBBB"), TurnOutcome::Miss(_)));
    assert_eq!(g.round(), 1);
    assert!(!g.turn());
    assert!(matches!(g.play_turn("CCCCCCC"), TurnOutcome::Miss(_)));
    assert_eq!(g.round(), 2);
    assert!(g.turn());
    assert!(matches!(g.play_turn("DDDDDDD"), TurnOutcome::Miss(_)));
    assert_eq!(g.round(), 2);
    assert!(matches!(g.play_turn("EEEEEEE"), TurnOutcome::Miss(_)));
    assert_eq!(g.round(), 3);
    assert!(matches!(g.play_turn("aaaaaaa"), TurnOutcome::Win));
    assert_eq!(g.round(), 3);
    assert_eq!(g.active_player().name(), "Ana");
}

#[test]
fn accented_variant_in_list_wins() {
    let mut g = game_with("CAFES\nCAFÉS\n", 0, Difficulty::Easy);
    assert!(matches!(g.play_turn("cafés"), TurnOutcome::Win));
}

#[test]
fn accented_variant_not_in_list_does_not_win() {
    let mut g = game_with("CAFES\nBOLOS\n", 0, Difficulty::Easy);
    assert!(matches!(g.play_turn("cafés"), TurnOutcome::NotInList));
    assert!(!g.is_over());
}
