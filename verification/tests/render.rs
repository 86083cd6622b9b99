use hangman::art::man_art;
use hangman::game::{play_game, Game};
use hangman::render::{render_board, render_closing, render_verdict};

#[test]
fn the_board_at_the_start() {
    let game = Game::new("cat");
    assert_eq!(render_board(&game), format!("\n\n\n{}_ _ _ \n", man_art(0)));
}

#[test]
fn the_board_after_some_guesses() {
    let game = play_game("banana", &vec!['a', 'x', 'q']);
    assert_eq!(render_board(&game), format!("\n\nx q \n{}_ a _ a _ a \n", man_art(2)));
}

#[test]
fn the_board_after_a_loss() {
    let game = play_game("cat", &vec!['x', 'y', 'z', 'q', 'w', 'e', 'r']);
    assert_eq!(render_board(&game), format!("\n\nx y z q w e r \n{}_ _ _ \n", man_art(7)));
}

#[test]
fn the_board_of_an_empty_word() {
    let game = Game::new("");
    assert_eq!(render_board(&game), format!("\n\n\n{}\n", man_art(0)));
}

#[test]
fn no_verdict_before_the_end() {
    let game = play_game("cat", &vec!['c', 'x']);
    assert_eq!(render_verdict(&game), None);
}

#[test]
fn the_verdict_after_a_clean_win() {
    let game = play_game("cat", &vec!['c', 'a', 't']);
    assert_eq!(
        render_verdict(&game),
        Some(String::from("He walks free! You won with 0 incorrect guesses!\n\n"))
    );
}

#[test]
fn the_verdict_counts_the_wrong_guesses() {
    let wrong = ['x', 'y', 'z', 'q', 'w', 'e'];
    for count in 0..=6usize {
        let mut guesses: Vec<char> = wrong[..count].to_vec();
        guesses.extend(['c', 'a', 't']);
        let game = play_game("cat", &guesses);
        assert_eq!(
            render_verdict(&game),
            Some(format!("He walks free! You won with {} incorrect guesses!\n\n", count))
        );
    }
}

#[test]
fn the_verdict_after_a_loss_names_the_word() {
    let game = play_game("cat", &vec!['x', 'y', 'z', 'q', 'w', 'e', 'r']);
    assert_eq!(
        render_verdict(&game),
        Some(String::from("Sorry, you lose. The word was 'cat'.\n\n"))
    );
}

#[test]
fn the_verdict_after_a_loss_with_letters_found() {
    let game = play_game("banana", &vec!['a', 'x', 'y', 'z', 'q', 'w', 'e', 'r']);
    assert_eq!(
        render_verdict(&game),
        Some(String::from("Sorry, you lose. The word was 'banana'.\n\n"))
    );
}

#[test]
fn no_closing_before_the_end() {
    assert_eq!(render_closing(&Game::new("cat")), None);
}

#[test]
fn the_closing_after_a_win() {
    let game = play_game("cat", &vec!['x', 'c', 'a', 't']);
    assert_eq!(
        render_closing(&game),
        Some(format!(
            "\n\nx \n{}c a t \n\nHe walks free! You won with 1 incorrect guesses!\n\n",
            man_art(1)
        ))
    );
}

#[test]
fn the_closing_after_a_loss() {
    let game = play_game("cat", &vec!['x', 'y', 'z', 'q', 'w', 'e', 'r']);
    assert_eq!(
        render_closing(&game),
        Some(format!(
            "\n\nx y z q w e r \n{}_ _ _ \n\nSorry, you lose. The word was 'cat'.\n\n",
            man_art(7)
        ))
    );
}
