use super::attack::{
    base_of, generated, hashes_to, total, Attack, Candidate, SearchEnd, Trace,
};
use super::attack_options::AttackOptions;
use super::attack_stats::AttackStats;
use crate::message_gen::{accepts_all, GeneratorError, MessaageGenerator, TransformGenerator};
use std::collections::HashMap;
use std::hash::Hash;
use vstd::prelude::*;
use vstd::std_specs::hash::obeys_key_model;

verus! {

broadcast use vstd::std_specs::hash::group_hash_axioms;

/// How many of the first generated messages a search keeps for display.
pub const DISPLAYED_MESSAGES: u64 = 30;

/// What a table of first sightings holds: for each digest the index and the
/// text of the message that first produced it.
pub type Sightings<H> = Map<H, (nat, Seq<char>)>;

/// `candidate` meets, under its digest, a message with another text.
pub open spec fn collides<H>(table: Sightings<H>, candidate: Candidate<H>) -> bool {
    table.contains_key(candidate.digest) && table[candidate.digest].1 != candidate.message
}

/// The table after `candidate`, generated as number `index`, was looked up
/// in `table`: a digest that is new is entered, one that is known keeps its
/// first sighting.
pub open spec fn recorded<H>(table: Sightings<H>, candidate: Candidate<H>, index: nat) -> Sightings<
    H,
> {
    if table.contains_key(candidate.digest) {
        table
    } else {
        table.insert(candidate.digest, (index, candidate.message))
    }
}

/// The table after all of `candidates` were looked up in turn, starting from
/// the table that holds the initial message alone, at index 0.
pub open spec fn table_after<H>(
    initial: Seq<char>,
    initial_digest: H,
    candidates: Seq<Candidate<H>>,
) -> Sightings<H>
    decreases candidates.len(),
{
    if candidates.len() == 0 {
        Map::<H, (nat, Seq<char>)>::empty().insert(initial_digest, (0nat, initial))
    } else {
        recorded(
            table_after(initial, initial_digest, candidates.drop_last()),
            candidates.last(),
            candidates.len(),
        )
    }
}

/// Candidate `i` collides with a message seen before it.
pub open spec fn collision_at<H>(
    initial: Seq<char>,
    initial_digest: H,
    candidates: Seq<Candidate<H>>,
    i: int,
) -> bool {
    collides(table_after(initial, initial_digest, candidates.take(i)), candidates[i])
}

/// The first sighting of the initial message stays in the table, whatever
/// is looked up after it.
pub proof fn lemma_initial_sighting_stays<H>(
    initial: Seq<char>,
    initial_digest: H,
    candidates: Seq<Candidate<H>>,
)
    ensures
        table_after(initial, initial_digest, candidates).contains_key(initial_digest),
        table_after(initial, initial_digest, candidates)[initial_digest] == (0nat, initial),
    decreases candidates.len(),
{
    if candidates.len() > 0 {
        lemma_initial_sighting_stays(initial, initial_digest, candidates.drop_last());
    }
}

/// A generator that hands back the initial message unchanged has found
/// nothing: a candidate with the text and the digest of the initial
/// message is no collision, wherever in the run it comes.
pub proof fn lemma_unchanged_message_is_no_collision<H>(
    initial: Seq<char>,
    initial_digest: H,
    candidates: Seq<Candidate<H>>,
    i: int,
)
    requires
        0 <= i < candidates.len(),
        candidates[i].message == initial,
        candidates[i].digest == initial_digest,
    ensures
        !collision_at(initial, initial_digest, candidates, i),
{
    lemma_initial_sighting_stays(initial, initial_digest, candidates.take(i));
}

/// A candidate whose text is the one first seen under its digest is
/// passed over: it is no collision, and the table stays as it is.
pub proof fn lemma_repeat_is_passed_over<H>(
    table: Sightings<H>,
    candidate: Candidate<H>,
    index: nat,
)
    requires
        table.contains_key(candidate.digest),
        table[candidate.digest].1 == candidate.message,
    ensures
        !collides(table, candidate),
        recorded(table, candidate, index) == table,
{
}

/// What a lookup in the table of first sightings found.
#[derive(Debug)]
pub enum Observation {
    /// The digest was new, and the message was entered under it.
    Fresh,
    /// The digest was known, under a message with the same text: the
    /// generator has repeated itself, and nothing was entered.
    Repeat,
    /// The digest was known, under a message with another text, first seen
    /// at `index`.
    Collision { index: u64, message: String },
}

/// The first sighting of each digest: an append-only table from a digest to
/// the index and the text of the message that first produced it.
pub struct SeenDigests<H> {
    table: HashMap<H, (u64, String)>,
}

impl<H> View for SeenDigests<H> {
    type V = Sightings<H>;

    closed spec fn view(&self) -> Sightings<H> {
        Map::new(
            |digest: H| self.table@.contains_key(digest),
            |digest: H| (self.table@[digest].0 as nat, self.table@[digest].1@),
        )
    }
}

impl<H: Eq + Hash> SeenDigests<H> {
    /// A table that holds nothing.
    pub fn new() -> (seen: Self)
        requires
            obeys_key_model::<H>(),
        ensures
            seen@ == Map::<H, (nat, Seq<char>)>::empty(),
    {
        let seen = Self { table: HashMap::new() };
        seen
    }

    /// Looks `digest` up. Where it is new, `message` is entered under it as
    /// generated at `index`. Where it is known, the table stays as it is,
    /// and the result tells a repeated message from a collision.
    pub fn observe(&mut self, digest: H, index: u64, message: &String) -> (observation:
        Observation)
        requires
            obeys_key_model::<H>(),
        ensures
            final(self)@ == recorded(
                old(self)@,
                Candidate { message: message@, digest },
                index as nat,
            ),
            match observation {
                Observation::Fresh => !old(self)@.contains_key(digest),
                Observation::Repeat => old(self)@.contains_key(digest) && old(self)@[digest].1
                    == message@,
                Observation::Collision { index: first_index, message: first_message } => {
                    &&& old(self)@.contains_key(digest)
                    &&& old(self)@[digest] == (first_index as nat, first_message@)
                    &&& first_message@ != message@
                },
            },
    {
        match self.table.get(&digest) {
            Some(first) => {
                if first.1 == *message {
                    Observation::Repeat
                } else {
                    Observation::Collision { index: first.0, message: first.1.clone() }
                }
            },
            None => {
                self.table.insert(digest, (index, message.clone()));
                Observation::Fresh
            },
        }
    }
}

/// Two messages with different texts and the same digest, each with the
/// index at which it was generated (0 for the initial message).
#[derive(Debug)]
pub struct Collision {
    /// The message that was seen first.
    pub first: (u64, String),
    /// The message that was generated last and met the first.
    pub second: (u64, String),
}

/// The messages kept for display are the first of `candidates`, as many as
/// are displayed at most.
pub open spec fn displays<H>(displayed: Seq<String>, candidates: Seq<Candidate<H>>) -> bool {
    &&& displayed.len() == if candidates.len() <= DISPLAYED_MESSAGES {
        candidates.len()
    } else {
        DISPLAYED_MESSAGES as nat
    }
    &&& forall|i: int|
        0 <= i < displayed.len() ==> (#[trigger] displayed[i])@ == candidates[i].message
}

/// A run of the collision search, told by what it went through.
///
/// The run starts from `initial` with the generator in state
/// `generator_before`, and obtains the candidates of `trace` one after
/// another. No candidate but the last collides with a message seen before
/// it. The run ends with `end`, having counted `count` generated messages
/// and kept `displayed` for display, and leaves the generator in state
/// `generator_after`.
pub open spec fn collision_run<G: MessaageGenerator, F: Fn(&[u8]) -> H, H>(
    hash_function: F,
    initial: Seq<char>,
    incremental: bool,
    generator_before: G,
    generator_after: G,
    count: u64,
    end: SearchEnd<Collision>,
    displayed: Seq<String>,
    trace: Trace<G, H>,
) -> bool {
    let initial_digest = trace.initial_digest;
    let candidates = trace.candidates;
    let generators = trace.generators;
    let last = candidates.len() - 1;
    &&& hashes_to(hash_function, initial, initial_digest)
    &&& count == candidates.len()
    &&& displays(displayed, candidates)
    &&& generated(hash_function, initial, incremental, generators, candidates)
    &&& generators[0] == generator_before
    &&& forall|i: int|
        0 <= i < last ==> !#[trigger] collision_at(initial, initial_digest, candidates, i)
    &&& match end {
        SearchEnd::Found(collision) => {
            let first = table_after(initial, initial_digest, candidates.drop_last())[candidates[last].digest];
            &&& candidates.len() > 0
            &&& collision_at(initial, initial_digest, candidates, last)
            &&& collision.first.0 == first.0
            &&& collision.first.1@ == first.1
            &&& collision.second.0 == candidates.len()
            &&& collision.second.1@ == candidates[last].message
            &&& generator_after == generators.last()
        },
        SearchEnd::GeneratorFailed(error) => {
            &&& candidates.len() > 0 ==> !collision_at(initial, initial_digest, candidates, last)
            &&& generators.last().generates(
                base_of(initial, incremental, candidates, candidates.len() as int),
                &generator_after,
                Err(error),
            )
        },
        SearchEnd::CountExhausted => {
            &&& candidates.len() == u64::MAX
            &&& !collision_at(initial, initial_digest, candidates, last)
            &&& generator_after == generators.last()
        },
    }
}

/// The birthday attack: a search for two messages with different texts and
/// the same digest.
///
/// The search enters the initial message in a table of first sightings, at
/// index 0. It then lets the generator produce one candidate after another,
/// hashes each and looks its digest up. A digest that is new is entered. A
/// digest that is known under the same text is a repetition of the
/// generator and is passed over. A digest that is known under another text
/// is a collision, and ends the search.
#[verifier::reject_recursive_types(H)]
pub struct CollisionSearch<'a, G: MessaageGenerator, F, H: Eq + Hash> where F: Fn(&[u8]) -> H {
    initial_message: &'a str,
    message_generator: G,
    hash_function: F,
    options: AttackOptions,
    outcome: Option<SearchEnd<Collision>>,
    displayed: Vec<String>,
}

impl<'a, G: MessaageGenerator, F, H: Eq + Hash> CollisionSearch<'a, G, F, H> where
    F: Fn(&[u8]) -> H,
 {
    /// The message that the search starts from.
    pub closed spec fn initial_message(&self) -> Seq<char> {
        self.initial_message@
    }

    /// The generator, in the state it is in.
    pub closed spec fn message_generator(&self) -> G {
        self.message_generator
    }

    /// The hash function under attack.
    pub closed spec fn hash_function(&self) -> F {
        self.hash_function
    }

    /// The options that the search was made with.
    pub closed spec fn spec_options(&self) -> AttackOptions {
        self.options
    }

    /// How the last run ended; `None` before the first run.
    pub closed spec fn spec_outcome(&self) -> &Option<SearchEnd<Collision>> {
        &self.outcome
    }

    /// The messages of the last run that are kept for display.
    pub closed spec fn displayed(&self) -> Seq<String> {
        self.displayed@
    }

    /// A search that starts from `initial_message`. Nothing has been
    /// generated yet and no run has ended.
    pub fn new(
        initial_message: &'a str,
        message_generator: G,
        hash_function: F,
        options: AttackOptions,
    ) -> (search: Self)
        ensures
            search.initial_message() == initial_message@,
            search.message_generator() == message_generator,
            search.hash_function() == hash_function,
            search.options() == options,
            search.outcome() is None,
            search.displayed().len() == 0,
    {
        Self {
            initial_message,
            message_generator,
            hash_function,
            options,
            outcome: None,
            displayed: Vec::new(),
        }
    }

    /// The options that the search was made with.
    #[verifier::when_used_as_spec(spec_options)]
    pub fn options(&self) -> (options: AttackOptions)
        ensures
            options == self.options(),
    {
        self.options
    }

    /// How the last run ended; `None` before the first run.
    #[verifier::when_used_as_spec(spec_outcome)]
    pub fn outcome(&self) -> (outcome: &Option<SearchEnd<Collision>>)
        ensures
            outcome == self.outcome(),
    {
        &self.outcome
    }

    /// The first messages that the last run generated, at most
    /// `DISPLAYED_MESSAGES` of them, in the order in which they came.
    pub fn displayed_messages(&self) -> (displayed: &Vec<String>)
        ensures
            displayed@ == self.displayed(),
    {
        &self.displayed
    }

    /// Gives up the search for how its last run ended.
    pub fn into_outcome(self) -> (outcome: Option<SearchEnd<Collision>>)
        ensures
            outcome == self.outcome(),
    {
        self.outcome
    }
}

impl<'a, G: MessaageGenerator, F, H: Eq + Hash> Attack for CollisionSearch<'a, G, F, H> where
    F: Fn(&[u8]) -> H,
 {
    /// The hash function accepts every message, and digests can be keys of
    /// a hash table.
    open spec fn runnable(&self) -> bool {
        &&& total(self.hash_function())
        &&& obeys_key_model::<H>()
    }

    /// Searches until a collision is found, the generator fails or the
    /// counter is exhausted, and keeps how the search ended.
    ///
    /// Each candidate is derived from the one before it where the transform
    /// is incremental, from the initial message otherwise, whether or not
    /// the candidate was entered in the table.
    fn run(&mut self) -> (stats: AttackStats)
        ensures
            final(self).initial_message() == old(self).initial_message(),
            final(self).hash_function() == old(self).hash_function(),
            final(self).options() == old(self).options(),
            final(self).outcome() is Some,
            exists|trace: Trace<G, H>| #[trigger]
                collision_run(
                    old(self).hash_function(),
                    old(self).initial_message(),
                    old(self).options().incremental_transform(),
                    old(self).message_generator(),
                    final(self).message_generator(),
                    stats.generated_messages_count,
                    final(self).outcome()->0,
                    final(self).displayed(),
                    trace,
                ),
            final(self).outcome() matches Some(SearchEnd::Found(collision)) ==> {
                &&& collision.first.0 < collision.second.0
                &&& collision.first.1@ != collision.second.1@
                &&& exists|digest: H|
                    {
                        &&& #[trigger] hashes_to(
                            old(self).hash_function(),
                            collision.first.1@,
                            digest,
                        )
                        &&& hashes_to(old(self).hash_function(), collision.second.1@, digest)
                    }
            },
    {
        let initial = self.initial_message.to_owned();
        let incremental = self.options.incremental_transform();
        let initial_hash = (self.hash_function)(self.initial_message.as_bytes());
        let ghost initial_digest = initial_hash;
        let mut seen = SeenDigests::new();
        seen.observe(initial_hash, 0, &initial);
        let mut last_message = initial;
        let mut count: u64 = 0;
        let mut displayed: Vec<String> = Vec::new();
        let mut end: SearchEnd<Collision> = SearchEnd::CountExhausted;
        let ghost mut candidates: Seq<Candidate<H>> = Seq::empty();
        let ghost mut generators: Seq<G> = seq![self.message_generator];
        while count < u64::MAX
            invariant_except_break
                count == candidates.len(),
                displays(displayed@, candidates),
                generated(
                    self.hash_function,
                    self.initial_message@,
                    incremental,
                    generators,
                    candidates,
                ),
                generators[0] == old(self).message_generator,
                generators.last() == self.message_generator,
                last_message@ == base_of(
                    self.initial_message@,
                    incremental,
                    candidates,
                    candidates.len() as int,
                ),
                seen@ == table_after(self.initial_message@, initial_digest, candidates),
                forall|digest: H| #[trigger]
                    seen@.contains_key(digest) ==> seen@[digest].0 <= count && hashes_to(
                        self.hash_function,
                        seen@[digest].1,
                        digest,
                    ),
                forall|i: int|
                    0 <= i < candidates.len() ==> !#[trigger] collision_at(
                        self.initial_message@,
                        initial_digest,
                        candidates,
                        i,
                    ),
                end is CountExhausted,
            invariant
                self.initial_message == old(self).initial_message,
                self.hash_function == old(self).hash_function,
                self.options == old(self).options,
                old(self).runnable(),
                incremental == self.options.incremental_transform(),
                hashes_to(self.hash_function, self.initial_message@, initial_digest),
            ensures
                collision_run(
                    self.hash_function,
                    self.initial_message@,
                    incremental,
                    old(self).message_generator,
                    self.message_generator,
                    count,
                    end,
                    displayed@,
                    Trace { initial_digest, candidates, generators },
                ),
                end matches SearchEnd::Found(collision) ==> {
                    &&& collision.first.0 < collision.second.0
                    &&& collision.first.1@ != collision.second.1@
                    &&& hashes_to(self.hash_function, collision.first.1@, candidates.last().digest)
                    &&& hashes_to(
                        self.hash_function,
                        collision.second.1@,
                        candidates.last().digest,
                    )
                },
            decreases u64::MAX - count,
        {
            let generated = if incremental {
                self.message_generator.generate_from(last_message.as_str())
            } else {
                self.message_generator.generate_from(self.initial_message)
            };
            match generated {
                Err(error) => {
                    end = SearchEnd::GeneratorFailed(error);
                    break ;
                },
                Ok(new_message) => {
                    count += 1;
                    if count <= DISPLAYED_MESSAGES {
                        displayed.push(new_message.clone());
                    }
                    let digest = (self.hash_function)(new_message.as_str().as_bytes());
                    let ghost candidate = Candidate { message: new_message@, digest };
                    let ghost earlier = candidates;
                    proof {
                        candidates = candidates.push(candidate);
                        generators = generators.push(self.message_generator);
                        assert(candidates.take(earlier.len() as int) =~= earlier);
                        assert forall|i: int| 0 <= i < earlier.len() implies !#[trigger] collision_at(
                            self.initial_message@,
                            initial_digest,
                            candidates,
                            i,
                        ) by {
                            assert(candidates.take(i) =~= earlier.take(i));
                            assert(collision_at(self.initial_message@, initial_digest, earlier, i)
                                == collision_at(
                                self.initial_message@,
                                initial_digest,
                                candidates,
                                i,
                            ));
                        }
                    }
                    match seen.observe(digest, count, &new_message) {
                        Observation::Collision { index, message } => {
                            let collision =
                                Collision { first: (index, message), second: (count, new_message) };
                            end = SearchEnd::Found(collision);
                            break ;
                        },
                        _ => {
                            if incremental {
                                last_message = new_message;
                            }
                        },
                    }
                },
            }
        }
        self.outcome = Some(end);
        self.displayed = displayed;
        let stats = AttackStats { generated_messages_count: count };
        assert(collision_run(
            old(self).hash_function(),
            old(self).initial_message(),
            old(self).options().incremental_transform(),
            old(self).message_generator(),
            self.message_generator(),
            stats.generated_messages_count,
            self.outcome()->0,
            self.displayed(),
            Trace { initial_digest, candidates, generators },
        ));
        stats
    }
}

/// The birthday attack on a plain function in place of a generator: runs
/// a search from `message` in which every candidate is what
/// `transform_func` returns, and hands back what the run cost and how it
/// ended.
pub fn bd_attack<T, F, H>(
    message: &str,
    transform_func: T,
    hash_func: F,
    incremental_transform: bool,
) -> (report: (AttackStats, SearchEnd<Collision>)) where
    T: Fn(&str) -> Result<String, GeneratorError>,
    F: Fn(&[u8]) -> H,
    H: Eq + Hash,

    requires
        accepts_all(transform_func),
        total(hash_func),
        obeys_key_model::<H>(),
    ensures
        exists|
            generator_after: TransformGenerator<T>,
            displayed: Seq<String>,
            trace: Trace<TransformGenerator<T>, H>,
        |
            {
                &&& trace.generators[0].transform() == transform_func
                &&& #[trigger] collision_run(
                    hash_func,
                    message@,
                    incremental_transform,
                    trace.generators[0],
                    generator_after,
                    report.0.generated_messages_count,
                    report.1,
                    displayed,
                    trace,
                )
            },
{
    let options = AttackOptions::default().set_incremental_transform(incremental_transform);
    let generator = TransformGenerator::new(transform_func);
    let ghost generator_before = generator;
    let mut search = CollisionSearch::new(message, generator, hash_func, options);
    let stats = search.run();
    let ghost generator_after = search.message_generator();
    let ghost displayed = search.displayed();
    let ghost trace = choose|trace: Trace<TransformGenerator<T>, H>| #[trigger]
        collision_run(
            hash_func,
            message@,
            incremental_transform,
            generator_before,
            generator_after,
            stats.generated_messages_count,
            search.outcome()->0,
            displayed,
            trace,
        );
    let end = search.into_outcome().unwrap();
    let report = (stats, end);
    assert(collision_run(
        hash_func,
        message@,
        incremental_transform,
        trace.generators[0],
        generator_after,
        report.0.generated_messages_count,
        report.1,
        displayed,
        trace,
    ));
    report
}

} // verus!
