use vstd::prelude::*;

verus! {

/// The symbol shown in place of a letter that has not been guessed yet.
pub const PLACEHOLDER: char = '_';

/// The number of distinct wrong guesses at which the game is lost.
pub const MAX_WRONG_GUESSES: usize = 7;

/// One session of the game, as mathematics: the secret word, what the player
/// sees of it, and the distinct wrong guesses in the order they were made.
pub struct GameState {
    pub word: Seq<char>,
    pub revealed: Seq<char>,
    pub wrong: Seq<char>,
}

/// A secret word as the word list is meant to hold it: lowercase letters only.
pub open spec fn is_secret_word(word: Seq<char>) -> bool {
    forall|i: int| 0 <= i < word.len() ==> 'a' <= #[trigger] word[i] <= 'z'
}

/// A row of `len` placeholders: what the player sees before the first guess.
pub open spec fn all_hidden(len: nat) -> Seq<char> {
    Seq::new(len, |i: int| PLACEHOLDER)
}

impl GameState {
    /// The state a session begins in: nothing revealed, no wrong guess yet.
    pub open spec fn start(word: Seq<char>) -> GameState {
        GameState { word, revealed: all_hidden(word.len()), wrong: Seq::empty() }
    }

    /// What holds of every state that a session can reach.
    pub open spec fn wf(self) -> bool {
        // The revealed row is as long as the word.
        &&& self.revealed.len() == self.word.len()
        // Each position shows the placeholder or the letter of the word there.
        &&& forall|i: int|
            0 <= i < self.word.len() ==> #[trigger] self.revealed[i] == PLACEHOLDER
                || self.revealed[i] == self.word[i]
        // A letter is revealed wherever it occurs, or nowhere.
        &&& forall|i: int, j: int|
            0 <= i < self.word.len() && 0 <= j < self.word.len() && self.word[i] == self.word[j]
                ==> #[trigger] self.revealed[i] == #[trigger] self.revealed[j]
        // No wrong guess is counted twice, and never more than the budget.
        &&& self.wrong.no_duplicates()
        &&& self.wrong.len() <= MAX_WRONG_GUESSES
        // No wrong guess is a letter of the word.
        &&& forall|k: int|
            0 <= k < self.wrong.len() ==> !self.word.contains(#[trigger] self.wrong[k])
    }

    /// Won: no placeholder is left in the revealed row.
    pub open spec fn is_won(self) -> bool {
        !self.revealed.contains(PLACEHOLDER)
    }

    /// Lost: the budget of wrong guesses is used up and a placeholder is left.
    pub open spec fn is_lost(self) -> bool {
        self.revealed.contains(PLACEHOLDER) && self.wrong.len() >= MAX_WRONG_GUESSES
    }

    /// Over: won or lost. No further guess is taken then.
    pub open spec fn is_over(self) -> bool {
        self.is_won() || self.is_lost()
    }

    /// The revealed row after `c` is uncovered wherever the word holds it.
    pub open spec fn uncover(self, c: char) -> Seq<char> {
        Seq::new(
            self.revealed.len(),
            |i: int|
                if self.word[i] == c {
                    c
                } else {
                    self.revealed[i]
                },
        )
    }

    /// The wrong guesses after `c` was guessed: `c` is added at the end if the
    /// word does not hold it and it was not counted before.
    pub open spec fn note_miss(self, c: char) -> Seq<char> {
        if !self.word.contains(c) && !self.wrong.contains(c) {
            self.wrong.push(c)
        } else {
            self.wrong
        }
    }

    /// One turn. A guess made after the session is over changes nothing.
    pub open spec fn guess(self, c: char) -> GameState {
        if self.is_over() {
            self
        } else {
            GameState { word: self.word, revealed: self.uncover(c), wrong: self.note_miss(c) }
        }
    }

    /// The turns of `guesses`, taken in order.
    pub open spec fn play(self, guesses: Seq<char>) -> GameState
        decreases guesses.len(),
    {
        if guesses.len() == 0 {
            self
        } else {
            self.play(guesses.drop_last()).guess(guesses.last())
        }
    }
}

/// A session begins in a well-formed state, whatever the word.
pub proof fn lemma_start_wf(word: Seq<char>)
    ensures
        GameState::start(word).wf(),
        GameState::start(word).word == word,
        GameState::start(word).revealed.len() == word.len(),
{
}

/// A turn keeps the state well-formed and never touches the secret word, so
/// the revealed row is as long as the word after every guess.
pub proof fn lemma_guess_wf(s: GameState, c: char)
    requires
        s.wf(),
    ensures
        s.guess(c).wf(),
        s.guess(c).word == s.word,
        s.guess(c).revealed.len() == s.word.len(),
{
}

/// Whatever is guessed in whatever order, the state stays well-formed: the
/// revealed row always has the length of the secret word.
pub proof fn lemma_play_wf(word: Seq<char>, guesses: Seq<char>)
    ensures
        GameState::start(word).play(guesses).wf(),
        GameState::start(word).play(guesses).word == word,
        GameState::start(word).play(guesses).revealed.len() == word.len(),
    decreases guesses.len(),
{
    if guesses.len() > 0 {
        lemma_play_wf(word, guesses.drop_last());
        lemma_guess_wf(GameState::start(word).play(guesses.drop_last()), guesses.last());
    }
}

/// Once a session is over, further guesses change nothing.
pub proof fn lemma_play_after_over(s: GameState, guesses: Seq<char>)
    requires
        s.is_over(),
    ensures
        s.play(guesses) == s,
    decreases guesses.len(),
{
    if guesses.len() > 0 {
        lemma_play_after_over(s, guesses.drop_last());
    }
}

/// Playing one run of guesses and then another is playing them joined.
pub proof fn lemma_play_concat(s: GameState, first: Seq<char>, then: Seq<char>)
    ensures
        s.play(first + then) == s.play(first).play(then),
    decreases then.len(),
{
    if then.len() > 0 {
        lemma_play_concat(s, first, then.drop_last());
        assert((first + then).drop_last() =~= first + then.drop_last());
    }
}

} // verus!
