use crate::text::{push_spaced, spaced};
use vstd::prelude::*;

verus! {

/// The empty gallows: no wrong guess yet.
pub const GALLOWS: &'static str =
    "    |-----|\n          |\n          |\n          |\n          |\n _________|\n|         |\n\n";

/// One wrong guess: the head.
pub const HEAD: &'static str =
    "    |-----|\n   ( )    |\n          |\n          |\n          |\n _________|\n|         |\n\n";

/// Two wrong guesses: the torso.
pub const TORSO: &'static str =
    "    |-----|\n   ( )    |\n    |     |\n    |     |\n          |\n _________|\n|         |\n\n";

/// Three wrong guesses: the first leg.
pub const ONE_LEG: &'static str =
    "    |-----|\n   ( )    |\n    |     |\n    |     |\n   /      |\n _________|\n|         |\n\n";

/// Four wrong guesses: both legs.
pub const BOTH_LEGS: &'static str =
    "    |-----|\n   ( )    |\n    |     |\n    |     |\n   / \\    |\n _________|\n|         |\n\n";

/// Five wrong guesses: the first arm.
pub const ONE_ARM: &'static str =
    "    |-----|\n   ( )    |\n  --|     |\n    |     |\n   / \\    |\n _________|\n|         |\n\n";

/// Six wrong guesses: both arms. The man is complete and the trapdoor still shut.
pub const BOTH_ARMS: &'static str =
    "    |-----|\n   ( )    |\n  --|--   |\n    |     |\n   / \\    |\n _________|\n|         |\n\n";

/// Seven wrong guesses: the trapdoor opens and the man meets his fate.
pub const FATE: &'static str =
    "    |-----|\n   (x)    |\n  --|--   |\n    |     |\n   / \\    |\n _     ___|\n| \\   /   |\n\n";

/// The picture for each stage, as text: seven rows and a blank line.
pub open spec fn man_art_text(stage: nat) -> Seq<char> {
    if stage == 0 {
        GALLOWS@
    } else if stage == 1 {
        HEAD@
    } else if stage == 2 {
        TORSO@
    } else if stage == 3 {
        ONE_LEG@
    } else if stage == 4 {
        BOTH_LEGS@
    } else if stage == 5 {
        ONE_ARM@
    } else if stage == 6 {
        BOTH_ARMS@
    } else {
        FATE@
    }
}

/// The picture for `stage`. Every stage has one: from seven on it is the last.
pub fn man_art(stage: usize) -> (art: &'static str)
    ensures
        art@ == man_art_text(stage as nat),
{
    match stage {
        0 => GALLOWS,
        1 => HEAD,
        2 => TORSO,
        3 => ONE_LEG,
        4 => BOTH_LEGS,
        5 => ONE_ARM,
        6 => BOTH_ARMS,
        _ => FATE,
    }
}

/// Where the `k`-th wrong guess leaves its stroke in the picture, and the
/// character it draws there: head, torso, the two legs, the two arms, and at
/// last the cross in the face.
pub open spec fn stroke(k: nat) -> (int, char) {
    if k == 1 {
        (15, '(')
    } else if k == 2 {
        (28, '|')
    } else if k == 3 {
        (51, '/')
    } else if k == 4 {
        (53, '\\')
    } else if k == 5 {
        (26, '-')
    } else if k == 6 {
        (29, '-')
    } else {
        (16, 'x')
    }
}

/// The pictures only get worse: the picture for a stage shows the strokes of
/// all wrong guesses up to that stage and none of the later ones.
pub proof fn lemma_strokes_accumulate(stage: nat, k: nat)
    requires
        1 <= k <= 7,
    ensures
        man_art_text(stage).len() == 85,
        man_art_text(stage)[stroke(k).0] == (if k <= stage {
            stroke(k).1
        } else {
            ' '
        }),
{
    reveal_strlit(
        "    |-----|\n          |\n          |\n          |\n          |\n _________|\n|         |\n\n",
    );
    reveal_strlit(
        "    |-----|\n   ( )    |\n          |\n          |\n          |\n _________|\n|         |\n\n",
    );
    reveal_strlit(
        "    |-----|\n   ( )    |\n    |     |\n    |     |\n          |\n _________|\n|         |\n\n",
    );
    reveal_strlit(
        "    |-----|\n   ( )    |\n    |     |\n    |     |\n   /      |\n _________|\n|         |\n\n",
    );
    reveal_strlit(
        "    |-----|\n   ( )    |\n    |     |\n    |     |\n   / \\    |\n _________|\n|         |\n\n",
    );
    reveal_strlit(
        "    |-----|\n   ( )    |\n  --|     |\n    |     |\n   / \\    |\n _________|\n|         |\n\n",
    );
    reveal_strlit(
        "    |-----|\n   ( )    |\n  --|--   |\n    |     |\n   / \\    |\n _________|\n|         |\n\n",
    );
    reveal_strlit(
        "    |-----|\n   (x)    |\n  --|--   |\n    |     |\n   / \\    |\n _     ___|\n| \\   /   |\n\n",
    );
}

/// The eight pictures differ from one another, the last from the one before
/// it too, and from stage seven on the picture no longer changes.
pub proof fn lemma_man_art_distinct(i: nat, j: nat)
    ensures
        i < j <= 7 ==> man_art_text(i) != man_art_text(j),
        j >= 7 ==> man_art_text(j) == man_art_text(7),
{
    if i < j <= 7 {
        lemma_strokes_accumulate(i, j);
        lemma_strokes_accumulate(j, j);
    }
}

/// What the player is shown above the word: two empty lines, the wrong guesses
/// so far in the order they were made, and the picture for their number.
pub open spec fn display_text(guesses: Seq<char>) -> Seq<char> {
    seq!['\n', '\n'] + spaced(guesses) + seq!['\n'] + man_art_text(guesses.len())
}

/// The text of [`display_text`] for the wrong guesses made so far.
pub fn display_man(guesses: &Vec<char>) -> (text: String)
    ensures
        text@ == display_text(guesses@),
{
    let mut text = String::new();
    text.push('\n');
    text.push('\n');
    push_spaced(&mut text, guesses);
    text.push('\n');
    text.append(man_art(guesses.len()));
    text
}

} // verus!
