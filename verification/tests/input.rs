use hangman::input::{blank, parse_guess, GuessError, NOT_A_LETTER, NOT_SINGLE, PROMPT};

#[test]
fn a_letter_and_a_line_break_is_a_guess() {
    assert_eq!(parse_guess("a\n"), Ok('a'));
    assert_eq!(parse_guess("z\r\n"), Ok('z'));
    assert_eq!(parse_guess("q"), Ok('q'));
}

#[test]
fn a_capital_letter_is_folded_to_lowercase() {
    assert_eq!(parse_guess("A\n"), Ok('a'));
    assert_eq!(parse_guess("Z"), Ok('z'));
    assert_eq!(parse_guess("M\n"), Ok('m'));
}

#[test]
fn every_letter_is_its_own_guess() {
    for c in 'a'..='z' {
        assert_eq!(parse_guess(&format!("{}\n", c)), Ok(c));
        assert_eq!(parse_guess(&format!("{}\n", c.to_ascii_uppercase())), Ok(c));
    }
}

#[test]
fn blanks_around_the_letter_do_not_count() {
    assert_eq!(parse_guess("  b \t\n"), Ok('b'));
    assert_eq!(parse_guess("\u{a0}c\u{3000}"), Ok('c'));
    assert_eq!(parse_guess("\u{2003}D\u{85}\n"), Ok('d'));
}

#[test]
fn an_empty_line_is_no_single_letter() {
    assert_eq!(parse_guess(""), Err(GuessError::NotSingle));
    assert_eq!(parse_guess("\n"), Err(GuessError::NotSingle));
    assert_eq!(parse_guess("   \t \r\n"), Err(GuessError::NotSingle));
}

#[test]
fn more_than_one_character_is_no_single_letter() {
    assert_eq!(parse_guess("ab\n"), Err(GuessError::NotSingle));
    assert_eq!(parse_guess("a b\n"), Err(GuessError::NotSingle));
    assert_eq!(parse_guess("12\n"), Err(GuessError::NotSingle));
    assert_eq!(parse_guess("hello"), Err(GuessError::NotSingle));
}

#[test]
fn a_character_of_more_than_a_byte_is_no_single_letter() {
    assert_eq!(parse_guess("é\n"), Err(GuessError::NotSingle));
    assert_eq!(parse_guess("ß"), Err(GuessError::NotSingle));
    assert_eq!(parse_guess("\u{80}"), Err(GuessError::NotSingle));
    assert_eq!(parse_guess("字\n"), Err(GuessError::NotSingle));
}

#[test]
fn a_single_character_that_is_no_letter() {
    assert_eq!(parse_guess("1\n"), Err(GuessError::NotALetter));
    assert_eq!(parse_guess("_\n"), Err(GuessError::NotALetter));
    assert_eq!(parse_guess("?"), Err(GuessError::NotALetter));
    assert_eq!(parse_guess(" @ "), Err(GuessError::NotALetter));
    assert_eq!(parse_guess("["), Err(GuessError::NotALetter));
    assert_eq!(parse_guess("`"), Err(GuessError::NotALetter));
    assert_eq!(parse_guess("{"), Err(GuessError::NotALetter));
    assert_eq!(parse_guess("\u{7f}"), Err(GuessError::NotALetter));
    assert_eq!(parse_guess("\u{0}"), Err(GuessError::NotALetter));
}

#[test]
fn a_line_is_read_as_std_reads_it() {
    let lines = [
        "a\n", "A", " x ", "", "\n", "ab", "é", "1", " \u{2028}k\u{2029} ", "\u{1680}Q\u{205f}",
        "\u{200b}a", "a\u{feff}", "\u{1c}b\u{1f}", "\u{b}c\u{c}", "- ", "zz top", "\u{202f}Y",
    ];
    for line in lines {
        let cut = line.trim();
        let want = if cut.len() != 1 {
            Err(GuessError::NotSingle)
        } else {
            let c = cut.chars().next().unwrap();
            if c.is_alphabetic() {
                Ok(c.to_ascii_lowercase())
            } else {
                Err(GuessError::NotALetter)
            }
        };
        assert_eq!(parse_guess(line), want, "line {:?}", line);
    }
}

#[test]
fn blank_is_white_space_for_every_character() {
    for code in 0..=0x10ffffu32 {
        if let Some(c) = char::from_u32(code) {
            assert_eq!(blank(c), c.is_whitespace(), "U+{:04X}", code);
        }
    }
}

#[test]
fn the_messages() {
    assert_eq!(PROMPT, "> ");
    assert_eq!(NOT_SINGLE, "Your guess must be a single letter.");
    assert_eq!(NOT_A_LETTER, "Your guess must be a letter.");
    assert_eq!(GuessError::NotSingle.message(), "Your guess must be a single letter.");
    assert_eq!(GuessError::NotALetter.message(), "Your guess must be a letter.");
}
