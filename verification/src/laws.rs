use crate::state::{
    all_hidden, is_secret_word, lemma_play_wf, GameState, MAX_WRONG_GUESSES, PLACEHOLDER,
};
use vstd::prelude::*;

verus! {

/// What the player sees of `word` when exactly the letters of `guessed` have
/// been uncovered.
pub open spec fn shown(word: Seq<char>, guessed: Seq<char>) -> Seq<char> {
    Seq::new(
        word.len(),
        |i: int|
            if guessed.contains(word[i]) {
                word[i]
            } else {
                PLACEHOLDER
            },
    )
}

/// A session is never won and lost at once, and it is over exactly when the
/// word is revealed or the budget of wrong guesses is used up.
pub proof fn lemma_outcomes(s: GameState)
    ensures
        !(s.is_won() && s.is_lost()),
        s.is_over() <==> s.is_won() || s.wrong.len() >= MAX_WRONG_GUESSES,
{
}

/// A won session shows the secret word itself.
pub proof fn lemma_won_shows_word(s: GameState)
    requires
        s.wf(),
        s.is_won(),
    ensures
        s.revealed == s.word,
{
    assert(s.revealed =~= s.word);
}

/// A word of lowercase letters holds no placeholder.
pub proof fn lemma_secret_word_has_no_placeholder(word: Seq<char>)
    requires
        is_secret_word(word),
    ensures
        !word.contains(PLACEHOLDER),
{
}

/// A hit reveals every position that holds the guessed letter in one turn,
/// leaves every other position as it was, and counts nothing as wrong.
pub proof fn lemma_hit_reveals_every_occurrence(s: GameState, c: char)
    requires
        s.wf(),
        !s.is_over(),
        s.word.contains(c),
    ensures
        s.guess(c).wrong == s.wrong,
        s.guess(c).revealed.len() == s.word.len(),
        forall|i: int|
            0 <= i < s.word.len() ==> #[trigger] s.guess(c).revealed[i] == (if s.word[i] == c {
                c
            } else {
                s.revealed[i]
            }),
{
}

/// A letter of the word that was not revealed before uncovers at least one
/// position that was hidden: the position that the law hands back.
pub proof fn lemma_fresh_hit_reveals(s: GameState, c: char) -> (i: int)
    requires
        s.wf(),
        !s.is_over(),
        s.word.contains(c),
        !s.revealed.contains(c),
    ensures
        0 <= i < s.word.len(),
        s.revealed[i] == PLACEHOLDER,
        s.guess(c).revealed[i] == c,
{
    choose|i: int| 0 <= i < s.word.len() && s.word[i] == c
}

/// A letter that is already revealed changes nothing when it is guessed again.
pub proof fn lemma_repeated_hit(s: GameState, c: char)
    requires
        s.wf(),
        s.revealed.contains(c),
        c != PLACEHOLDER,
    ensures
        s.guess(c) == s,
{
    assert(s.uncover(c) =~= s.revealed);
}

/// A miss leaves the revealed row alone and adds at most one wrong guess: one
/// if the letter was not counted before, none if it was.
pub proof fn lemma_miss_counts_once(s: GameState, c: char)
    requires
        s.wf(),
        !s.is_over(),
        !s.word.contains(c),
    ensures
        s.guess(c).revealed == s.revealed,
        s.wrong.contains(c) ==> s.guess(c).wrong == s.wrong,
        !s.wrong.contains(c) ==> s.guess(c).wrong == s.wrong.push(c),
{
    assert(s.uncover(c) =~= s.revealed);
}

/// Repeating a wrong guess changes nothing at all, so the number of wrong
/// guesses stays as it was.
pub proof fn lemma_repeated_wrong_guess(s: GameState, c: char)
    requires
        s.wf(),
        s.wrong.contains(c),
    ensures
        s.guess(c) == s,
        s.guess(c).wrong.len() == s.wrong.len(),
{
    if !s.is_over() {
        lemma_miss_counts_once(s, c);
    }
}

/// The wrong guesses only grow, by at most one per turn, and what was counted
/// stays counted in its place.
pub proof fn lemma_wrong_guesses_grow(s: GameState, c: char)
    ensures
        s.wrong.is_prefix_of(s.guess(c).wrong),
        s.guess(c).wrong.len() <= s.wrong.len() + 1,
{
}

/// A letter occurs among the guesses if it is the last of them or occurs
/// among the earlier ones.
proof fn lemma_contains_last_or_earlier(guesses: Seq<char>, x: char)
    requires
        guesses.len() > 0,
    ensures
        guesses.contains(x) <==> guesses.drop_last().contains(x) || x == guesses.last(),
{
    let earlier = guesses.drop_last();
    if guesses.contains(x) {
        let k = choose|k: int| 0 <= k < guesses.len() && guesses[k] == x;
        if k < earlier.len() {
            assert(earlier[k] == x);
        }
    }
    if earlier.contains(x) {
        let k = choose|k: int| 0 <= k < earlier.len() && earlier[k] == x;
        assert(guesses[k] == x);
    }
    if x == guesses.last() {
        assert(guesses[guesses.len() - 1] == x);
    }
}

/// While a session is open, the player sees exactly the letters guessed so
/// far, whatever else was guessed.
pub proof fn lemma_open_session_shows_guesses(word: Seq<char>, guesses: Seq<char>)
    requires
        !GameState::start(word).play(guesses).is_over(),
    ensures
        GameState::start(word).play(guesses).revealed == shown(word, guesses),
    decreases guesses.len(),
{
    if guesses.len() > 0 {
        let s = GameState::start(word).play(guesses.drop_last());
        lemma_play_wf(word, guesses.drop_last());
        lemma_open_session_shows_guesses(word, guesses.drop_last());
        assert forall|i: int| 0 <= i < word.len() implies s.uncover(guesses.last())[i] == shown(
            word,
            guesses,
        )[i] by {
            lemma_contains_last_or_earlier(guesses, word[i]);
        }
    }
}

/// No session goes on for ever: once every letter of the word has been
/// guessed, whatever was guessed besides, the session is over.
pub proof fn lemma_every_letter_guessed_ends(word: Seq<char>, guesses: Seq<char>)
    requires
        !word.contains(PLACEHOLDER),
        forall|i: int| 0 <= i < word.len() ==> guesses.contains(#[trigger] word[i]),
    ensures
        GameState::start(word).play(guesses).is_over(),
{
    if !GameState::start(word).play(guesses).is_over() {
        lemma_open_session_shows_guesses(word, guesses);
        assert(shown(word, guesses) =~= word);
    }
}

/// A player who has tried the whole alphabet has finished the session, won or
/// lost, on any word of lowercase letters.
pub proof fn lemma_alphabet_ends(word: Seq<char>, guesses: Seq<char>)
    requires
        is_secret_word(word),
        forall|c: char| 'a' <= c <= 'z' ==> guesses.contains(c),
    ensures
        GameState::start(word).play(guesses).is_over(),
{
    lemma_every_letter_guessed_ends(word, guesses);
}

/// As long as only letters of the word are guessed, nothing counts as wrong
/// and the player sees exactly the letters guessed so far.
pub proof fn lemma_play_hits(word: Seq<char>, guesses: Seq<char>)
    requires
        forall|k: int| 0 <= k < guesses.len() ==> word.contains(#[trigger] guesses[k]),
    ensures
        GameState::start(word).play(guesses) == (GameState {
            word,
            revealed: shown(word, guesses),
            wrong: Seq::empty(),
        }),
    decreases guesses.len(),
{
    if guesses.len() == 0 {
        assert(shown(word, guesses) =~= all_hidden(word.len()));
    } else {
        let s = GameState::start(word).play(guesses.drop_last());
        lemma_play_hits(word, guesses.drop_last());
        assert(word.contains(guesses[guesses.len() - 1]));
        assert forall|i: int| 0 <= i < word.len() implies s.guess(guesses.last()).revealed[i]
            == shown(word, guesses)[i] by {
            lemma_contains_last_or_earlier(guesses, word[i]);
        }
        assert(s.guess(guesses.last()).revealed =~= shown(word, guesses));
    }
}

/// Guessing every letter of the word, in any order, with repeats or without,
/// and nothing else, ends in a win with no wrong guess and the whole word
/// revealed.
pub proof fn lemma_guessing_every_letter_wins(word: Seq<char>, guesses: Seq<char>)
    requires
        !word.contains(PLACEHOLDER),
        forall|k: int| 0 <= k < guesses.len() ==> word.contains(#[trigger] guesses[k]),
        forall|i: int| 0 <= i < word.len() ==> guesses.contains(#[trigger] word[i]),
    ensures
        GameState::start(word).play(guesses).is_won(),
        GameState::start(word).play(guesses).wrong.len() == 0,
        GameState::start(word).play(guesses).revealed == word,
        GameState::start(word).play(guesses).word == word,
{
    lemma_play_hits(word, guesses);
    assert(shown(word, guesses) =~= word);
}

/// As long as only letters that the word does not hold are guessed, each one
/// once and no more of them than the budget allows, the word stays hidden and
/// the wrong guesses are those letters in the order they were made.
pub proof fn lemma_play_misses(word: Seq<char>, guesses: Seq<char>)
    requires
        word.len() > 0,
        guesses.len() <= MAX_WRONG_GUESSES,
        guesses.no_duplicates(),
        forall|k: int| 0 <= k < guesses.len() ==> !word.contains(#[trigger] guesses[k]),
    ensures
        GameState::start(word).play(guesses) == (GameState {
            word,
            revealed: all_hidden(word.len()),
            wrong: guesses,
        }),
    decreases guesses.len(),
{
    if guesses.len() == 0 {
        assert(guesses =~= Seq::<char>::empty());
    } else {
        let s = GameState::start(word).play(guesses.drop_last());
        lemma_play_misses(word, guesses.drop_last());
        lemma_play_wf(word, guesses.drop_last());
        assert(s.revealed[0] == PLACEHOLDER);
        assert(!word.contains(guesses[guesses.len() - 1]));
        lemma_contains_last_or_earlier(guesses, guesses.last());
        lemma_miss_counts_once(s, guesses.last());
        assert(guesses.drop_last().push(guesses.last()) =~= guesses);
    }
}

/// Seven different letters, none of them in the word, lose the session: the
/// word stays hidden from the first position to the last, and the secret word
/// that the lost session reports is the word it was begun with.
pub proof fn lemma_seven_misses_lose(word: Seq<char>, guesses: Seq<char>)
    requires
        word.len() > 0,
        guesses.len() == MAX_WRONG_GUESSES,
        guesses.no_duplicates(),
        forall|k: int| 0 <= k < guesses.len() ==> !word.contains(#[trigger] guesses[k]),
    ensures
        GameState::start(word).play(guesses).is_lost(),
        !GameState::start(word).play(guesses).is_won(),
        GameState::start(word).play(guesses).word == word,
        GameState::start(word).play(guesses).revealed == all_hidden(word.len()),
        GameState::start(word).play(guesses).wrong == guesses,
{
    lemma_play_misses(word, guesses);
    assert(all_hidden(word.len())[0] == PLACEHOLDER);
}

} // verus!
