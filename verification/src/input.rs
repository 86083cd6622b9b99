use crate::text::chars_of;
use vstd::prelude::*;

verus! {

/// What the player is shown when a guess is asked for.
pub const PROMPT: &'static str = "> ";

/// What the player is told when the line holds no single character.
pub const NOT_SINGLE: &'static str = "Your guess must be a single letter.";

/// What the player is told when the single character is no letter.
pub const NOT_A_LETTER: &'static str = "Your guess must be a letter.";

/// Why a line of input is no guess.
#[derive(Clone, Copy, Debug, PartialEq, Eq, Structural)]
pub enum GuessError {
    /// The line, blanks at its ends aside, is empty, holds more than one
    /// character, or holds one that takes more than a byte.
    NotSingle,
    /// The single character is not one of the letters A to Z, in either case.
    NotALetter,
}

impl GuessError {
    /// The sentence that tells the player what was wrong.
    pub open spec fn message_text(self) -> Seq<char> {
        match self {
            GuessError::NotSingle => NOT_SINGLE@,
            GuessError::NotALetter => NOT_A_LETTER@,
        }
    }

    /// The sentence of [`GuessError::message_text`].
    pub fn message(&self) -> (text: &'static str)
        ensures
            text@ == self.message_text(),
    {
        match self {
            GuessError::NotSingle => NOT_SINGLE,
            GuessError::NotALetter => NOT_A_LETTER,
        }
    }
}

/// White space in the sense of Unicode: the characters that count as blank at
/// the ends of a line, the line break among them.
pub open spec fn is_blank(c: char) -> bool {
    ||| '\u{9}' <= c <= '\u{d}'
    ||| c == ' '
    ||| c == '\u{85}'
    ||| c == '\u{a0}'
    ||| c == '\u{1680}'
    ||| '\u{2000}' <= c <= '\u{200a}'
    ||| c == '\u{2028}'
    ||| c == '\u{2029}'
    ||| c == '\u{202f}'
    ||| c == '\u{205f}'
    ||| c == '\u{3000}'
}

/// One of the fifty-two letters A to Z and a to z.
pub open spec fn is_letter(c: char) -> bool {
    'a' <= c <= 'z' || 'A' <= c <= 'Z'
}

/// The lowercase form of a letter A to Z; any other character as it is.
pub open spec fn lowercase(c: char) -> char {
    if 'A' <= c <= 'Z' {
        ((c as u8) + 32) as char
    } else {
        c
    }
}

/// `s` without the blanks at its beginning.
pub open spec fn trim_start(s: Seq<char>) -> Seq<char>
    decreases s.len(),
{
    if s.len() > 0 && is_blank(s.first()) {
        trim_start(s.drop_first())
    } else {
        s
    }
}

/// `s` without the blanks at its end.
pub open spec fn trim_end(s: Seq<char>) -> Seq<char>
    decreases s.len(),
{
    if s.len() > 0 && is_blank(s.last()) {
        trim_end(s.drop_last())
    } else {
        s
    }
}

/// `s` without the blanks at either end.
pub open spec fn trimmed(s: Seq<char>) -> Seq<char> {
    trim_end(trim_start(s))
}

/// The guess that a line of input stands for. The line is a guess if, blanks
/// at its ends aside, it is one letter A to Z in either case; the guess is
/// that letter in lowercase.
pub open spec fn parse_guess_spec(line: Seq<char>) -> Result<char, GuessError> {
    let t = trimmed(line);
    if t.len() == 1 && t[0] <= '\u{7f}' {
        if is_letter(t[0]) {
            Ok(lowercase(t[0]))
        } else {
            Err(GuessError::NotALetter)
        }
    } else {
        Err(GuessError::NotSingle)
    }
}

/// Cutting `skipped` blanks off the front of `s` is trimming its beginning,
/// if what follows them is no blank.
pub proof fn lemma_trim_start(s: Seq<char>, skipped: int)
    requires
        0 <= skipped <= s.len(),
        forall|i: int| 0 <= i < skipped ==> is_blank(#[trigger] s[i]),
        skipped < s.len() ==> !is_blank(s[skipped]),
    ensures
        trim_start(s) == s.skip(skipped),
    decreases skipped,
{
    if skipped > 0 {
        lemma_trim_start(s.drop_first(), skipped - 1);
    }
}

/// Keeping the first `kept` characters of `s` is trimming its end, if the
/// rest is blank and the last one kept is not.
pub proof fn lemma_trim_end(s: Seq<char>, kept: int)
    requires
        0 <= kept <= s.len(),
        forall|i: int| kept <= i < s.len() ==> is_blank(#[trigger] s[i]),
        0 < kept ==> !is_blank(s[kept - 1]),
    ensures
        trim_end(s) == s.take(kept),
    decreases s.len() - kept,
{
    if kept < s.len() {
        lemma_trim_end(s.drop_last(), kept);
    }
}

/// Whether `c` is white space.
pub fn blank(c: char) -> (b: bool)
    ensures
        b == is_blank(c),
{
    ('\u{9}' <= c && c <= '\u{d}') || c == ' ' || c == '\u{85}' || c == '\u{a0}' || c
        == '\u{1680}' || ('\u{2000}' <= c && c <= '\u{200a}') || c == '\u{2028}' || c
        == '\u{2029}' || c == '\u{202f}' || c == '\u{205f}' || c == '\u{3000}'
}

/// Reads a guess from a line of input, or says why the line is none.
pub fn parse_guess(line: &str) -> (guess: Result<char, GuessError>)
    ensures
        guess == parse_guess_spec(line@),
        guess matches Ok(c) ==> 'a' <= c <= 'z',
{
    let chars = chars_of(line);
    let n = chars.len();
    let mut from: usize = 0;
    while from < n && blank(chars[from])
        invariant
            from <= n,
            n == chars.len(),
            forall|i: int| 0 <= i < from ==> is_blank(#[trigger] chars@[i]),
        decreases n - from,
    {
        from = from + 1;
    }
    let mut to: usize = n;
    while to > from && blank(chars[to - 1])
        invariant
            from <= to <= n,
            n == chars.len(),
            forall|i: int| to <= i < n ==> is_blank(#[trigger] chars@[i]),
        decreases to,
    {
        to = to - 1;
    }
    proof {
        lemma_trim_start(chars@, from as int);
        lemma_trim_end(chars@.skip(from as int), to - from);
    }
    if to - from != 1 || chars[from] > '\u{7f}' {
        return Err(GuessError::NotSingle);
    }
    let c = chars[from];
    if 'a' <= c && c <= 'z' {
        Ok(c)
    } else if 'A' <= c && c <= 'Z' {
        Ok(((c as u8) + 32) as char)
    } else {
        Err(GuessError::NotALetter)
    }
}

} // verus!
