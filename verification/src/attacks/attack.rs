use super::attack_stats::AttackStats;
use crate::message_gen::{GeneratorError, MessaageGenerator};
use vstd::prelude::*;
use vstd::utf8::encode_utf8;

verus! {

/// An attack that can be run to its end and then says what it cost.
pub trait Attack {
    /// What has to hold of an attack before it is run.
    spec fn runnable(&self) -> bool;

    /// Runs the attack until it ends. The result counts the messages that
    /// were generated on the way.
    fn run(&mut self) -> (stats: AttackStats)
        requires
            old(self).runnable(),
    ;
}

/// How a run ended.
#[derive(Debug)]
pub enum SearchEnd<T> {
    /// The search found what it was looking for.
    Found(T),
    /// The generator failed, so no further candidate could be had.
    GeneratorFailed(GeneratorError),
    /// As many messages were generated as the counter can count, none of
    /// them a success.
    CountExhausted,
}

/// One candidate of a run: the message that the generator returned, and the
/// digest that the hash function returned for it.
pub ghost struct Candidate<H> {
    pub message: Seq<char>,
    pub digest: H,
}

/// What a run went through: the digest of its initial message, the
/// candidates that it obtained, in order, and the state of the generator
/// before each candidate and after the last.
pub ghost struct Trace<G, H> {
    pub initial_digest: H,
    pub candidates: Seq<Candidate<H>>,
    pub generators: Seq<G>,
}

/// `hash_function` accepts every byte string.
pub open spec fn total<F: Fn(&[u8]) -> H, H>(hash_function: F) -> bool {
    forall|bytes: &[u8]| #[trigger] call_requires(hash_function, (bytes,))
}

/// `digest` is what `hash_function` returned for the bytes of `message`.
pub open spec fn hashes_to<F: Fn(&[u8]) -> H, H>(
    hash_function: F,
    message: Seq<char>,
    digest: H,
) -> bool {
    exists|bytes: &[u8]|
        bytes@ == encode_utf8(message) && #[trigger] call_ensures(hash_function, (bytes,), digest)
}

/// The message from which candidate `i` of a run is derived: the candidate
/// before it where the transform is incremental and there is one, the
/// initial message otherwise.
pub open spec fn base_of<H>(
    initial: Seq<char>,
    incremental: bool,
    candidates: Seq<Candidate<H>>,
    i: int,
) -> Seq<char> {
    if incremental && i > 0 {
        candidates[i - 1].message
    } else {
        initial
    }
}

/// `candidates` is what a run obtained, in order: candidate `i` was produced
/// by the generator in state `generators[i]` from its base message, which
/// left the generator in state `generators[i + 1]`, and was then hashed.
pub open spec fn generated<G: MessaageGenerator, F: Fn(&[u8]) -> H, H>(
    hash_function: F,
    initial: Seq<char>,
    incremental: bool,
    generators: Seq<G>,
    candidates: Seq<Candidate<H>>,
) -> bool {
    &&& generators.len() == candidates.len() + 1
    &&& forall|i: int|
        0 <= i < candidates.len() ==> {
            &&& generators[i].generates(
                base_of(initial, incremental, candidates, i),
                &generators[i + 1],
                Ok((#[trigger] candidates[i]).message),
            )
            &&& hashes_to(hash_function, candidates[i].message, candidates[i].digest)
        }
}

} // verus!
