use crate::art::{display_man, display_text};
use crate::game::Game;
use crate::state::GameState;
use crate::text::{push_spaced, spaced, text_of};
use vstd::prelude::*;

verus! {

/// How the report of a win begins; the number of wrong guesses follows.
pub const WIN_OPENING: &'static str = "He walks free! You won with ";

/// How the report of a win ends.
pub const WIN_CLOSING: &'static str = " incorrect guesses!\n\n";

/// How the report of a loss begins; the secret word follows.
pub const LOSS_OPENING: &'static str = "Sorry, you lose. The word was '";

/// How the report of a loss ends.
pub const LOSS_CLOSING: &'static str = "'.\n\n";

/// The decimal digit for a number below ten.
pub open spec fn digit(n: nat) -> char {
    ('0' as u8 + n) as u8 as char
}

/// What the player is shown each turn: the wrong guesses and the picture, then
/// the revealed row, letter by letter, on a line of its own.
pub open spec fn board_text(s: GameState) -> Seq<char> {
    display_text(s.wrong) + spaced(s.revealed) + seq!['\n']
}

/// What the player is told at the end: after a win the number of wrong
/// guesses, after a loss the secret word.
pub open spec fn verdict_text(s: GameState) -> Seq<char> {
    if s.is_won() {
        WIN_OPENING@ + seq![digit(s.wrong.len())] + WIN_CLOSING@
    } else {
        LOSS_OPENING@ + s.word + LOSS_CLOSING@
    }
}

/// What the player is shown when the session is over: the board once more, an
/// empty line, and the verdict.
pub open spec fn closing_text(s: GameState) -> Seq<char> {
    board_text(s) + seq!['\n'] + verdict_text(s)
}

/// The text of [`board_text`] for the session as it stands.
pub fn render_board(game: &Game) -> (text: String)
    ensures
        text@ == board_text(game@),
{
    let mut text = display_man(game.wrong_guesses());
    push_spaced(&mut text, game.revealed());
    text.push('\n');
    text
}

/// The text of [`verdict_text`] once the session is over; nothing before that.
pub fn render_verdict(game: &Game) -> (text: Option<String>)
    ensures
        text is Some <==> game@.is_over(),
        text matches Some(t) ==> t@ == verdict_text(game@),
{
    if !game.is_over() {
        return None;
    }
    let mut text = String::new();
    if game.is_won() {
        let count = game.wrong_guess_count();
        text.append(WIN_OPENING);
        text.push(('0' as u8 + count as u8) as char);
        text.append(WIN_CLOSING);
    } else {
        text.append(LOSS_OPENING);
        text.append(text_of(game.word()).as_str());
        text.append(LOSS_CLOSING);
    }
    Some(text)
}

/// The text of [`closing_text`] once the session is over; nothing before that.
pub fn render_closing(game: &Game) -> (text: Option<String>)
    ensures
        text is Some <==> game@.is_over(),
        text matches Some(t) ==> t@ == closing_text(game@),
{
    match render_verdict(game) {
        Some(verdict) => {
            let mut text = render_board(game);
            text.push('\n');
            text.append(verdict.as_str());
            Some(text)
        },
        None => None,
    }
}

} // verus!
