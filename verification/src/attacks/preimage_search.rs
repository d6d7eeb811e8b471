use super::attack::{base_of, generated, hashes_to, total, Attack, Candidate, SearchEnd, Trace};
use super::attack_options::AttackOptions;
use super::attack_stats::AttackStats;
use crate::message_gen::{accepts_all, GeneratorError, MessaageGenerator, TransformGenerator};
use vstd::prelude::*;
use vstd::std_specs::cmp::PartialEqSpec;

verus! {

/// `candidate` is a second preimage: its digest equals `target`, the digest
/// of the initial message, and its text is not that of the initial message.
pub open spec fn preimage_hit<H: PartialEq>(
    initial: Seq<char>,
    target: H,
    candidate: Candidate<H>,
) -> bool {
    target.eq_spec(&candidate.digest) && candidate.message != initial
}

/// Whether `message`, whose digest is `digest`, is a second preimage for the
/// initial message, whose digest is `target`.
///
/// A message with the text of the initial message is none, whatever its
/// digest: a generator may hand back the message it was given.
pub fn is_second_preimage<H: Eq>(
    initial: &String,
    target: &H,
    message: &String,
    digest: &H,
) -> (hit: bool)
    requires
        H::obeys_eq_spec(),
    ensures
        hit == preimage_hit(initial@, *target, Candidate { message: message@, digest: *digest }),
{
    *target == *digest && !(*initial == *message)
}

/// A run of the preimage search, told by what it went through.
///
/// The run starts from `initial` with the generator in state
/// `generator_before`, and obtains the candidates of `trace` one after
/// another. No candidate but the last is a second preimage. The run ends
/// with `end`, having counted `count` generated messages, and leaves the
/// generator in state `generator_after`.
pub open spec fn preimage_run<G: MessaageGenerator, F: Fn(&[u8]) -> H, H: PartialEq>(
    hash_function: F,
    initial: Seq<char>,
    incremental: bool,
    generator_before: G,
    generator_after: G,
    count: u64,
    end: SearchEnd<String>,
    trace: Trace<G, H>,
) -> bool {
    let target = trace.initial_digest;
    let candidates = trace.candidates;
    let generators = trace.generators;
    let last = candidates.len() - 1;
    &&& hashes_to(hash_function, initial, target)
    &&& count == candidates.len()
    &&& generated(hash_function, initial, incremental, generators, candidates)
    &&& generators[0] == generator_before
    &&& forall|i: int| 0 <= i < last ==> !preimage_hit(initial, target, #[trigger] candidates[i])
    &&& match end {
        SearchEnd::Found(message) => {
            &&& candidates.len() > 0
            &&& preimage_hit(initial, target, candidates[last])
            &&& message@ == candidates[last].message
            &&& generator_after == generators.last()
        },
        SearchEnd::GeneratorFailed(error) => {
            &&& candidates.len() > 0 ==> !preimage_hit(initial, target, candidates[last])
            &&& generators.last().generates(
                base_of(initial, incremental, candidates, candidates.len() as int),
                &generator_after,
                Err(error),
            )
        },
        SearchEnd::CountExhausted => {
            &&& candidates.len() == u64::MAX
            &&& !preimage_hit(initial, target, candidates[last])
            &&& generator_after == generators.last()
        },
    }
}

/// The preimage attack: a random search for a message with another text
/// than the initial message and the same digest.
///
/// The search hashes the initial message once. It then lets the generator
/// produce one candidate after another and hashes each, until a candidate
/// has the digest of the initial message and another text.
#[verifier::reject_recursive_types(H)]
pub struct RandomPreimageSearch<'a, G: MessaageGenerator, F, H: Eq> where F: Fn(&[u8]) -> H {
    initial_message: &'a str,
    message_generator: G,
    hash_function: F,
    options: AttackOptions,
    outcome: Option<SearchEnd<String>>,
}

impl<'a, G: MessaageGenerator, F, H: Eq> RandomPreimageSearch<'a, G, F, H> where
    F: Fn(&[u8]) -> H,
 {
    /// The message that the search starts from.
    pub closed spec fn initial_message(&self) -> Seq<char> {
        self.initial_message@
    }

    /// The generator, in the state it is in.
    pub closed spec fn message_generator(&self) -> G {
        self.message_generator
    }

    /// The hash function under attack.
    pub closed spec fn hash_function(&self) -> F {
        self.hash_function
    }

    /// The options that the search was made with.
    pub closed spec fn spec_options(&self) -> AttackOptions {
        self.options
    }

    /// How the last run ended; `None` before the first run.
    pub closed spec fn spec_outcome(&self) -> &Option<SearchEnd<String>> {
        &self.outcome
    }

    /// A search that starts from `initial_message`. Nothing has been
    /// generated yet and no run has ended.
    pub fn new(
        initial_message: &'a str,
        message_generator: G,
        hash_function: F,
        options: AttackOptions,
    ) -> (search: Self)
        ensures
            search.initial_message() == initial_message@,
            search.message_generator() == message_generator,
            search.hash_function() == hash_function,
            search.options() == options,
            search.outcome() is None,
    {
        Self { initial_message, message_generator, hash_function, options, outcome: None }
    }

    /// The options that the search was made with.
    #[verifier::when_used_as_spec(spec_options)]
    pub fn options(&self) -> (options: AttackOptions)
        ensures
            options == self.options(),
    {
        self.options
    }

    /// How the last run ended; `None` before the first run.
    #[verifier::when_used_as_spec(spec_outcome)]
    pub fn outcome(&self) -> (outcome: &Option<SearchEnd<String>>)
        ensures
            outcome == self.outcome(),
    {
        &self.outcome
    }

    /// Gives up the search for how its last run ended.
    pub fn into_outcome(self) -> (outcome: Option<SearchEnd<String>>)
        ensures
            outcome == self.outcome(),
    {
        self.outcome
    }
}

impl<'a, G: MessaageGenerator, F, H: Eq> Attack for RandomPreimageSearch<'a, G, F, H> where
    F: Fn(&[u8]) -> H,
 {
    /// The hash function accepts every message, and `==` on digests means
    /// what its model says.
    open spec fn runnable(&self) -> bool {
        &&& total(self.hash_function())
        &&& H::obeys_eq_spec()
    }

    /// Searches until a second preimage is found, the generator fails or
    /// the counter is exhausted, and keeps how the search ended.
    ///
    /// Each candidate is derived from the one before it where the transform
    /// is incremental, from the initial message otherwise. A candidate is
    /// held against the initial message only, never against the candidate
    /// it was derived from.
    fn run(&mut self) -> (stats: AttackStats)
        ensures
            final(self).initial_message() == old(self).initial_message(),
            final(self).hash_function() == old(self).hash_function(),
            final(self).options() == old(self).options(),
            final(self).outcome() is Some,
            exists|trace: Trace<G, H>| #[trigger]
                preimage_run(
                    old(self).hash_function(),
                    old(self).initial_message(),
                    old(self).options().incremental_transform(),
                    old(self).message_generator(),
                    final(self).message_generator(),
                    stats.generated_messages_count,
                    final(self).outcome()->0,
                    trace,
                ),
            final(self).outcome() matches Some(SearchEnd::Found(message)) ==> {
                &&& message@ != old(self).initial_message()
                &&& exists|target: H, digest: H|
                    {
                        &&& hashes_to(
                            old(self).hash_function(),
                            old(self).initial_message(),
                            target,
                        )
                        &&& #[trigger] hashes_to(old(self).hash_function(), message@, digest)
                        &&& #[trigger] target.eq_spec(&digest)
                    }
            },
    {
        let initial = self.initial_message.to_owned();
        let incremental = self.options.incremental_transform();
        let target_hash = (self.hash_function)(self.initial_message.as_bytes());
        let mut last_message = initial.clone();
        let mut count: u64 = 0;
        let mut end: SearchEnd<String> = SearchEnd::CountExhausted;
        let ghost mut candidates: Seq<Candidate<H>> = Seq::empty();
        let ghost mut generators: Seq<G> = seq![self.message_generator];
        while count < u64::MAX
            invariant_except_break
                count == candidates.len(),
                generated(
                    self.hash_function,
                    self.initial_message@,
                    incremental,
                    generators,
                    candidates,
                ),
                generators[0] == old(self).message_generator,
                generators.last() == self.message_generator,
                last_message@ == base_of(
                    self.initial_message@,
                    incremental,
                    candidates,
                    candidates.len() as int,
                ),
                forall|i: int|
                    0 <= i < candidates.len() ==> !preimage_hit(
                        self.initial_message@,
                        target_hash,
                        #[trigger] candidates[i],
                    ),
                end is CountExhausted,
            invariant
                self.initial_message == old(self).initial_message,
                self.hash_function == old(self).hash_function,
                self.options == old(self).options,
                old(self).runnable(),
                incremental == self.options.incremental_transform(),
                initial@ == self.initial_message@,
                hashes_to(self.hash_function, self.initial_message@, target_hash),
            ensures
                preimage_run(
                    self.hash_function,
                    self.initial_message@,
                    incremental,
                    old(self).message_generator,
                    self.message_generator,
                    count,
                    end,
                    Trace { initial_digest: target_hash, candidates, generators },
                ),
                end matches SearchEnd::Found(message) ==> {
                    &&& message@ != self.initial_message@
                    &&& hashes_to(self.hash_function, message@, candidates.last().digest)
                    &&& target_hash.eq_spec(&candidates.last().digest)
                },
            decreases u64::MAX - count,
        {
            let generated = if incremental {
                self.message_generator.generate_from(last_message.as_str())
            } else {
                self.message_generator.generate_from(self.initial_message)
            };
            match generated {
                Err(error) => {
                    end = SearchEnd::GeneratorFailed(error);
                    break ;
                },
                Ok(other_message) => {
                    count += 1;
                    let other_hash = (self.hash_function)(other_message.as_str().as_bytes());
                    proof {
                        let candidate = Candidate { message: other_message@, digest: other_hash };
                        candidates = candidates.push(candidate);
                        generators = generators.push(self.message_generator);
                    }
                    if is_second_preimage(&initial, &target_hash, &other_message, &other_hash) {
                        end = SearchEnd::Found(other_message);
                        break ;
                    }
                    if incremental {
                        last_message = other_message;
                    }
                },
            }
        }
        self.outcome = Some(end);
        let stats = AttackStats { generated_messages_count: count };
        assert(preimage_run(
            old(self).hash_function(),
            old(self).initial_message(),
            old(self).options().incremental_transform(),
            old(self).message_generator(),
            self.message_generator(),
            stats.generated_messages_count,
            self.outcome()->0,
            Trace { initial_digest: target_hash, candidates, generators },
        ));
        stats
    }
}

/// The preimage search on a plain function in place of a generator: runs
/// a search from `message` in which every candidate is what
/// `transform_func` returns, and hands back what the run cost and how it
/// ended.
pub fn pre_attack<T, F, H>(
    message: &str,
    transform_func: T,
    hash_func: F,
    incremental_transform: bool,
) -> (report: (AttackStats, SearchEnd<String>)) where
    T: Fn(&str) -> Result<String, GeneratorError>,
    F: Fn(&[u8]) -> H,
    H: Eq,

    requires
        accepts_all(transform_func),
        total(hash_func),
        H::obeys_eq_spec(),
    ensures
        exists|generator_after: TransformGenerator<T>, trace: Trace<TransformGenerator<T>, H>|
            {
                &&& trace.generators[0].transform() == transform_func
                &&& #[trigger] preimage_run(
                    hash_func,
                    message@,
                    incremental_transform,
                    trace.generators[0],
                    generator_after,
                    report.0.generated_messages_count,
                    report.1,
                    trace,
                )
            },
{
    let options = AttackOptions::default().set_incremental_transform(incremental_transform);
    let generator = TransformGenerator::new(transform_func);
    let ghost generator_before = generator;
    let mut search = RandomPreimageSearch::new(message, generator, hash_func, options);
    let stats = search.run();
    let ghost generator_after = search.message_generator();
    let ghost trace = choose|trace: Trace<TransformGenerator<T>, H>| #[trigger]
        preimage_run(
            hash_func,
            message@,
            incremental_transform,
            generator_before,
            generator_after,
            stats.generated_messages_count,
            search.outcome()->0,
            trace,
        );
    let end = search.into_outcome().unwrap();
    let report = (stats, end);
    assert(preimage_run(
        hash_func,
        message@,
        incremental_transform,
        trace.generators[0],
        generator_after,
        report.0.generated_messages_count,
        report.1,
        trace,
    ));
    report
}

} // verus!
