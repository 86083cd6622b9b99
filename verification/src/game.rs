use crate::state::{
    all_hidden, lemma_play_after_over, lemma_play_concat, GameState, MAX_WRONG_GUESSES,
    PLACEHOLDER,
};
use crate::text::{chars_of, contains};
use vstd::prelude::*;

verus! {

/// One session of the game. Its view is the [`GameState`] it stands for, and
/// that state is well-formed at all times.
pub struct Game {
    word: Vec<char>,
    revealed: Vec<char>,
    wrong: Vec<char>,
}

/// How a finished session ended.
#[derive(Clone, Copy, Debug, PartialEq, Eq, Structural)]
pub struct GameResult {
    pub won: bool,
    pub wrong_guess_count: usize,
}

impl View for Game {
    type V = GameState;

    closed spec fn view(&self) -> GameState {
        GameState { word: self.word@, revealed: self.revealed@, wrong: self.wrong@ }
    }
}

impl Game {
    #[verifier::type_invariant]
    spec fn inv(self) -> bool {
        self@.wf()
    }

    /// Begins a session on `word`: every letter hidden, no wrong guess yet.
    pub fn new(word: &str) -> (game: Game)
        ensures
            game@ == GameState::start(word@),
            game@.wf(),
    {
        let word = chars_of(word);
        let n = word.len();
        let mut revealed: Vec<char> = Vec::new();
        let mut i: usize = 0;
        while i < n
            invariant
                i <= n,
                revealed@ == all_hidden(i as nat),
            decreases n - i,
        {
            revealed.push(PLACEHOLDER);
            i = i + 1;
        }
        Game { word, revealed, wrong: Vec::new() }
    }

    /// Whether the whole word is revealed.
    pub fn is_won(&self) -> (won: bool)
        ensures
            won == self@.is_won(),
    {
        !contains(&self.revealed, PLACEHOLDER)
    }

    /// Whether the budget of wrong guesses is used up with the word not found.
    pub fn is_lost(&self) -> (lost: bool)
        ensures
            lost == self@.is_lost(),
    {
        self.wrong.len() >= MAX_WRONG_GUESSES && contains(&self.revealed, PLACEHOLDER)
    }

    /// Whether the session has ended, either way.
    pub fn is_over(&self) -> (over: bool)
        ensures
            over == self@.is_over(),
    {
        self.wrong.len() >= MAX_WRONG_GUESSES || !contains(&self.revealed, PLACEHOLDER)
    }

    /// Takes one guess. Every position of the word that holds `c` is revealed
    /// at once; a letter that the word does not hold is counted as wrong the
    /// first time it is guessed and never again. After the end of the session
    /// a guess changes nothing.
    pub fn guess(&mut self, c: char)
        ensures
            final(self)@ == old(self)@.guess(c),
            final(self)@.wf(),
            final(self)@.word == old(self)@.word,
            final(self)@.revealed.len() == old(self)@.word.len(),
            old(self)@.wrong.len() <= final(self)@.wrong.len() <= old(self)@.wrong.len() + 1,
            !old(self)@.is_over() ==> forall|i: int|
                0 <= i < old(self)@.word.len() && old(self)@.word[i] == c
                    ==> #[trigger] final(self)@.revealed[i] == c,
    {
        proof {
            use_type_invariant(&*self);
        }
        if self.is_over() {
            return;
        }
        // The session is well-formed at every step, so the new row is built
        // aside and put in place whole.
        let n = self.word.len();
        let mut row: Vec<char> = Vec::new();
        let mut hit = false;
        let mut i: usize = 0;
        while i < n
            invariant
                i <= n,
                n == self.word.len(),
                n == self.revealed.len(),
                row@ == self@.uncover(c).take(i as int),
                hit <==> exists|j: int| 0 <= j < i && self.word@[j] == c,
            decreases n - i,
        {
            if self.word[i] == c {
                row.push(c);
                hit = true;
            } else {
                row.push(self.revealed[i]);
            }
            i = i + 1;
        }
        assert(row@ =~= self@.uncover(c));
        assert(hit == self@.word.contains(c));
        self.revealed = row;
        if !hit && !contains(&self.wrong, c) {
            let mut wrong: Vec<char> = Vec::new();
            std::mem::swap(&mut wrong, &mut self.wrong);
            wrong.push(c);
            self.wrong = wrong;
        }
    }

    /// The secret word.
    pub fn word(&self) -> (word: &Vec<char>)
        ensures
            word@ == self@.word,
    {
        &self.word
    }

    /// What the player sees of the word: a letter where it was guessed, a
    /// placeholder elsewhere.
    pub fn revealed(&self) -> (row: &Vec<char>)
        ensures
            row@ == self@.revealed,
            row@.len() == self@.word.len(),
    {
        proof {
            use_type_invariant(self);
        }
        &self.revealed
    }

    /// The distinct wrong guesses, in the order they were made.
    pub fn wrong_guesses(&self) -> (wrong: &Vec<char>)
        ensures
            wrong@ == self@.wrong,
    {
        &self.wrong
    }

    /// The number of distinct wrong guesses so far; never more than the budget.
    pub fn wrong_guess_count(&self) -> (count: usize)
        ensures
            count == self@.wrong.len(),
            count <= MAX_WRONG_GUESSES,
    {
        proof {
            use_type_invariant(self);
        }
        self.wrong.len()
    }

    /// The outcome, once the session is over; nothing before that.
    pub fn result(&self) -> (result: Option<GameResult>)
        ensures
            result is Some <==> self@.is_over(),
            result matches Some(r) ==> r.won == self@.is_won() && r.wrong_guess_count
                == self@.wrong.len(),
    {
        if self.is_over() {
            Some(GameResult { won: self.is_won(), wrong_guess_count: self.wrong.len() })
        } else {
            None
        }
    }
}

/// Plays `guesses` in order on a fresh session for `word` and hands back the
/// session as it then stands. Guesses that come after the end are not taken.
pub fn play_game(word: &str, guesses: &Vec<char>) -> (game: Game)
    ensures
        game@ == GameState::start(word@).play(guesses@),
        game@.wf(),
{
    let mut game = Game::new(word);
    let n = guesses.len();
    let mut k: usize = 0;
    while k < n && !game.is_over()
        invariant
            k <= n,
            n == guesses.len(),
            game@ == GameState::start(word@).play(guesses@.take(k as int)),
            game@.wf(),
        decreases n - k,
    {
        game.guess(guesses[k]);
        proof {
            assert(guesses@.take(k + 1).drop_last() =~= guesses@.take(k as int));
        }
        k = k + 1;
    }
    proof {
        let start = GameState::start(word@);
        assert(guesses@.take(k as int) + guesses@.skip(k as int) =~= guesses@);
        lemma_play_concat(start, guesses@.take(k as int), guesses@.skip(k as int));
        if game@.is_over() {
            lemma_play_after_over(game@, guesses@.skip(k as int));
        }
    }
    game
}

} // verus!
