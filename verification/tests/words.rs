use hangman::words::{pick_index, pick_word, word_at};

fn list(words: &[&str]) -> Vec<String> {
    words.iter().map(|w| String::from(*w)).collect()
}

#[test]
fn nothing_is_picked_from_an_empty_list() {
    assert_eq!(pick_word(&Vec::new()), None);
    assert_eq!(pick_index(0), None);
}

#[test]
fn the_only_word_is_picked() {
    let words = list(&["cat"]);
    for _ in 0..50 {
        assert_eq!(pick_word(&words), Some(&words[0]));
        assert_eq!(pick_index(1), Some(0));
    }
}

#[test]
fn a_picked_word_is_one_of_the_list() {
    let words = list(&["cat", "banana", "mississippi"]);
    for _ in 0..200 {
        let word = pick_word(&words).unwrap();
        assert!(words.contains(word));
    }
}

#[test]
fn a_picked_index_is_below_the_length() {
    for len in 1..40usize {
        for _ in 0..20 {
            let index = pick_index(len).unwrap();
            assert!(index < len);
        }
    }
}

#[test]
fn every_word_of_a_short_list_is_picked_sooner_or_later() {
    let words = list(&["cat", "dog"]);
    let mut seen = [false, false];
    for _ in 0..2000 {
        let word = pick_word(&words).unwrap();
        if word == "cat" {
            seen[0] = true;
        } else {
            seen[1] = true;
        }
    }
    assert!(seen[0] && seen[1]);
}

#[test]
fn word_at_gives_the_word_at_the_index() {
    let words = list(&["cat", "banana"]);
    assert_eq!(word_at(&words, 0), Some(&words[0]));
    assert_eq!(word_at(&words, 1), Some(&words[1]));
    assert_eq!(word_at(&words, 2), None);
    assert_eq!(word_at(&Vec::new(), 0), None);
}
