use rand::rngs::ThreadRng;
use rand::Rng;
use vstd::prelude::*;

verus! {

/// `rand::rngs::ThreadRng`, the handle to the generator that each thread keeps
/// for itself. Nothing is known of what it holds.
#[verifier::external_type_specification]
#[verifier::external_body]
pub struct ExThreadRng(ThreadRng);

/// `rand::rng`: hands out the calling thread's generator, which the operating
/// system seeds on first use. Nothing is promised of the generator.
pub assume_specification[ rand::rng ]() -> (generator: ThreadRng)
;

/// `Rng::random_range` on the half-open range from zero to `bound`. The call
/// fails on an empty range, so `bound` must not be zero. What comes back lies
/// in the range, and that is all that is claimed of it: two calls with the
/// same bound may differ.
#[verifier::external_body]
fn random_below(generator: &mut ThreadRng, bound: usize) -> (index: usize)
    requires
        bound > 0,
    ensures
        index < bound,
{
    generator.random_range(0..bound)
}

/// The word at position `index` of the list, if the list is that long.
pub fn word_at(words: &Vec<String>, index: usize) -> (word: Option<&String>)
    ensures
        index < words.len() ==> word == Some(&words[index as int]),
        index >= words.len() ==> word is None,
{
    if index < words.len() {
        Some(&words[index])
    } else {
        None
    }
}

/// A position in a list of `len` words, drawn at random; none if the list is
/// empty.
pub fn pick_index(len: usize) -> (index: Option<usize>)
    ensures
        index is Some <==> len > 0,
        index matches Some(i) ==> i < len,
{
    if len == 0 {
        None
    } else {
        let mut generator = rand::rng();
        Some(random_below(&mut generator, len))
    }
}

/// A word of the list, drawn at random; none if the list is empty.
pub fn pick_word(words: &Vec<String>) -> (word: Option<&String>)
    ensures
        word is Some <==> words.len() > 0,
        word matches Some(w) ==> exists|i: int| 0 <= i < words.len() && words[i] == *w,
{
    match pick_index(words.len()) {
        Some(index) => word_at(words, index),
        None => None,
    }
}

} // verus!
