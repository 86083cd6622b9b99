use vstd::prelude::*;

verus! {

/// `String::push`, as std documents it: the character is appended at the end of
/// the string and nothing else changes.
pub assume_specification[ String::push ](s: &mut String, ch: char)
    ensures
        final(s)@ == old(s)@.push(ch),
;

/// The characters of `s`, in order.
pub fn chars_of(s: &str) -> (cs: Vec<char>)
    ensures
        cs@ == s@,
{
    let mut cs: Vec<char> = Vec::new();
    for c in it: s.chars()
        invariant
            cs@ == it.seq().take(it.index() as int),
    {
        cs.push(c);
    }
    cs
}

/// The text made of the characters of `cs`, in order.
pub fn text_of(cs: &Vec<char>) -> (s: String)
    ensures
        s@ == cs@,
{
    let n = cs.len();
    let mut s = String::new();
    let mut k: usize = 0;
    while k < n
        invariant
            k <= n,
            n == cs.len(),
            s@ == cs@.take(k as int),
        decreases n - k,
    {
        s.push(cs[k]);
        k = k + 1;
    }
    s
}

/// Whether `c` occurs in `cs`.
pub fn contains(cs: &Vec<char>, c: char) -> (found: bool)
    ensures
        found == cs@.contains(c),
{
    let n = cs.len();
    let mut k: usize = 0;
    while k < n
        invariant
            k <= n,
            n == cs.len(),
            forall|i: int| 0 <= i < k ==> cs@[i] != c,
        decreases n - k,
    {
        if cs[k] == c {
            return true;
        }
        k = k + 1;
    }
    false
}

/// The characters of `cs`, each followed by one blank: how a row of letters
/// is laid out for the player.
pub open spec fn spaced(cs: Seq<char>) -> Seq<char> {
    Seq::new(
        2 * cs.len(),
        |i: int|
            if i % 2 == 0 {
                cs[i / 2]
            } else {
                ' '
            },
    )
}

/// Appends the characters of `cs` to `out`, each followed by one blank.
pub fn push_spaced(out: &mut String, cs: &Vec<char>)
    ensures
        final(out)@ == old(out)@ + spaced(cs@),
{
    let n = cs.len();
    let mut k: usize = 0;
    while k < n
        invariant
            k <= n,
            n == cs.len(),
            out@ == old(out)@ + spaced(cs@.take(k as int)),
        decreases n - k,
    {
        out.push(cs[k]);
        out.push(' ');
        k = k + 1;
    }
}

} // verus!
