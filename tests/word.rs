use word_duel::word::LetterStatus::{Absent, Exact, Present};
use word_duel::word::{letters_are_equal, normalize_char, Word};
use word_duel::wordlist::WordList;

#[test]
fn normalize_folds_accents_and_keeps_case() {
    assert_eq!(normalize_char('é'), 'e');
    assert_eq!(normalize_char('Ã'), 'A');
    assert_eq!(normalize_char('ü'), 'u');
    assert_eq!(normalize_char('Ç'), 'C');
    assert_eq!(normalize_char('ç'), 'c');
    assert_eq!(normalize_char('x'), 'x');
    assert_eq!(normalize_char('E'), 'E');
}

#[test]
fn letters_equal_ignoring_accents() {
    assert!(letters_are_equal('Ó', 'O'));
    assert!(letters_are_equal('ô', 'õ'));
    assert!(!letters_are_equal('o', 'O'));
    assert!(!letters_are_equal('a', 'e'));
}

#[test]
fn word_is_upper_cased() {
    let w = Word::new("café");
    assert_eq!(w.get_word(), "CAFÉ");
}

#[test]
fn length_counts_characters_not_bytes() {
    let w = Word::new("ação");
    assert_eq!(w.length(), 4);
    assert_eq!(w.get_word().len(), 6);
}

#[test]
fn accented_and_plain_words_match() {
    assert!(Word::new("cafe").matches(&Word::new("café")));
    assert!(Word::new("CORAÇÃO").matches(&Word::new("coracao")));
    assert!(Word::new("cafe") == Word::new("CAFÉ"));
}

#[test]
fn words_of_different_length_never_match() {
    assert!(!Word::new("cafe").matches(&Word::new("cafes")));
    assert!(!Word::new("").matches(&Word::new("a")));
    assert!(Word::new("").matches(&Word::new("")));
}

#[test]
fn different_letters_do_not_match() {
    assert!(!Word::new("gardens").matches(&Word::new("dangers")));
}

#[test]
fn same_text_is_exact() {
    assert!(Word::new("café").same_text(&Word::new("CAFÉ")));
    assert!(!Word::new("café").same_text(&Word::new("CAFE")));
}

#[test]
fn feedback_classifies_each_letter() {
    let fb = Word::new("DANGERX").feedback(&Word::new("GARDENS"));
    assert_eq!(fb, vec![Present, Exact, Present, Present, Exact, Present, Absent]);
}

#[test]
fn feedback_ignores_accents() {
    let fb = Word::new("ÉA").feedback(&Word::new("EA"));
    assert_eq!(fb, vec![Exact, Exact]);
    let fb = Word::new("ÁE").feedback(&Word::new("EA"));
    assert_eq!(fb, vec![Present, Present]);
}

#[test]
fn feedback_of_longer_guess() {
    let fb = Word::new("ABC").feedback(&Word::new("A"));
    assert_eq!(fb, vec![Exact, Absent, Absent]);
}

#[test]
fn load_trims_uppercases_and_dedups() {
    let list = WordList::load("gardens\n  Dangers \r\nGARDENS\n");
    assert_eq!(list.len(), 2);
    assert!(list.contains(&Word::new("GARDENS")));
    assert!(list.contains(&Word::new("dangers")));
    assert!(!list.contains(&Word::new("  Dangers ")));
    assert_eq!(list.get(0).get_word(), "GARDENS");
    assert_eq!(list.get(1).get_word(), "DANGERS");
}

#[test]
fn load_empty_text() {
    let list = WordList::load("");
    assert_eq!(list.len(), 0);
    assert!(list.pick_random().is_none());
}

#[test]
fn membership_is_exact_not_tolerant() {
    let list = WordList::load("CAFÉS\n");
    assert!(list.contains(&Word::new("cafés")));
    assert!(!list.contains(&Word::new("cafes")));
}

#[test]
fn loading_twice_gives_the_same_entries() {
    let text = "alfa\nbravo\ncharlie\nbravo\n";
    let a = WordList::load(text);
    let b = WordList::load(text);
    assert_eq!(a.len(), b.len());
    for i in 0..a.len() {
        assert!(b.contains(a.get(i)));
    }
    for i in 0..b.len() {
        assert!(a.contains(b.get(i)));
    }
}

#[test]
fn pick_random_stays_in_range() {
    let list = WordList::load("alfa\nbravo\ncharlie\n");
    for _ in 0..50 {
        let i = list.pick_random().unwrap();
        assert!(i < 3);
    }
}

#[test]
fn insert_keeps_texts_unique() {
    let mut list = WordList::new();
    list.insert(Word::new("alfa"));
    list.insert(Word::new("ALFA"));
    list.insert(Word::new("alfá"));
    assert_eq!(list.len(), 2);
}
