use crate::random::{random_below, random_graphic_char, random_u64};
use crate::text::{append_number, decimal_digits, is_graphic, replace_char};
use vstd::prelude::*;
use vstd::string::*;

verus! {

/// Why a generator could not produce a message.
#[derive(Clone, Copy, Debug, PartialEq, Eq, Structural)]
pub enum GeneratorError {
    /// The message handed in has no character that could be replaced.
    InvalidInput,
    /// The counter has reached its last value and cannot be advanced.
    CounterExhausted,
}

/// What a call of a generator returned, with the message taken by its view.
pub open spec fn outcome_view(outcome: Result<String, GeneratorError>) -> Result<
    Seq<char>,
    GeneratorError,
> {
    match outcome {
        Ok(message) => Ok(message@),
        Err(error) => Err(error),
    }
}

/// A source of candidate messages.
///
/// Each call derives one new message from the message handed in. The call
/// leaves that message as it is; whatever the generator remembers between
/// calls it keeps in itself.
pub trait MessaageGenerator {
    /// What one call may do: `self` is the generator before the call, `next`
    /// the generator after it, and `outcome` what the call returned for
    /// `message`.
    spec fn generates(
        &self,
        message: Seq<char>,
        next: &Self,
        outcome: Result<Seq<char>, GeneratorError>,
    ) -> bool;

    /// Derives a new message from `message`.
    fn generate_from(&mut self, message: &str) -> (outcome: Result<String, GeneratorError>)
        ensures
            old(self).generates(message@, final(self), outcome_view(outcome)),
    ;
}

impl GeneratorError {
    /// What went wrong, in words.
    pub fn describe(&self) -> (text: String)
        ensures
            text@ == match *self {
                GeneratorError::InvalidInput => "invalid input: the message is empty"@,
                GeneratorError::CounterExhausted => "the counter is exhausted"@,
            },
    {
        match self {
            GeneratorError::InvalidInput => String::from_str(
                "invalid input: the message is empty",
            ),
            GeneratorError::CounterExhausted => String::from_str("the counter is exhausted"),
        }
    }
}

/// What appending a number to `message` may give: `message` followed by
/// the decimal notation of some 64-bit number.
pub open spec fn number_appended(
    message: Seq<char>,
    outcome: Result<Seq<char>, GeneratorError>,
) -> bool {
    outcome matches Ok(out) && exists|number: u64|
        out == message + #[trigger] decimal_digits(number as nat)
}

/// What changing one character of `message` may give: an error where the
/// message is empty, and otherwise `message` with the character at one
/// position replaced by a printable one.
pub open spec fn char_changed(
    message: Seq<char>,
    outcome: Result<Seq<char>, GeneratorError>,
) -> bool {
    if message.len() == 0 {
        outcome == Err::<Seq<char>, GeneratorError>(GeneratorError::InvalidInput)
    } else {
        outcome matches Ok(out) && exists|index: int, new_char: char|
            {
                &&& 0 <= index < message.len()
                &&& is_graphic(new_char)
                &&& out == #[trigger] message.update(index, new_char)
            }
    }
}

/// `out` is as long as `message` and differs from it at position `index`
/// at most.
pub open spec fn same_but_at(message: Seq<char>, out: Seq<char>, index: int) -> bool {
    &&& out.len() == message.len()
    &&& 0 <= index < message.len()
    &&& forall|i: int| 0 <= i < message.len() && i != index ==> #[trigger] out[i] == message[i]
}

/// A changed character leaves the length of the message as it was, and
/// every character but one in its place.
pub proof fn lemma_char_change_is_local(message: Seq<char>, out: Seq<char>)
    requires
        char_changed(message, Ok(out)),
    ensures
        out.len() == message.len(),
        exists|index: int| #[trigger] same_but_at(message, out, index),
{
    let (index, new_char) = choose|index: int, new_char: char|
        {
            &&& 0 <= index < message.len()
            &&& is_graphic(new_char)
            &&& out == #[trigger] message.update(index, new_char)
        };
    assert(same_but_at(message, out, index));
}

/// `message` followed by a random natural number.
pub fn transform_message_1(message: &str) -> (outcome: Result<String, GeneratorError>)
    ensures
        number_appended(message@, outcome_view(outcome)),
{
    let number = random_u64();
    let new_message = append_number(message, number);
    Ok(new_message)
}

/// `message` with a random character replaced by a random printable ASCII
/// character other than the space. An empty message has no character to
/// replace and is refused.
pub fn transform_message_2(message: &str) -> (outcome: Result<String, GeneratorError>)
    ensures
        char_changed(message@, outcome_view(outcome)),
{
    let length = message.unicode_len();
    if length == 0 {
        return Err(GeneratorError::InvalidInput);
    }
    let index = random_below(length);
    let new_char = random_graphic_char();
    let new_message = replace_char(message, index, new_char);
    Ok(new_message)
}

/// The generator that counts: each message is the message handed in
/// followed by the counter, which then goes up by one.
pub struct NaturalNumberMessageGenerator {
    counter: u64,
}

impl Default for NaturalNumberMessageGenerator {
    /// A generator whose counter stands at 1.
    fn default() -> (generator: Self)
        ensures
            generator.counter() == 1,
    {
        Self { counter: 1 }
    }
}

impl NaturalNumberMessageGenerator {
    /// The number that the next message ends in.
    pub closed spec fn spec_counter(&self) -> u64 {
        self.counter
    }

    /// The number that the next message ends in.
    #[verifier::when_used_as_spec(spec_counter)]
    pub fn counter(&self) -> (counter: u64)
        ensures
            counter == self.counter(),
    {
        self.counter
    }

    /// A generator whose counter stands at `counter`.
    pub fn starting_at(counter: u64) -> (generator: Self)
        ensures
            generator.counter() == counter,
    {
        Self { counter }
    }
}

impl MessaageGenerator for NaturalNumberMessageGenerator {
    /// The message is followed by the counter, and the counter goes up by
    /// one. At its last value the counter cannot go up: the call fails and
    /// leaves the generator as it was.
    open spec fn generates(
        &self,
        message: Seq<char>,
        next: &Self,
        outcome: Result<Seq<char>, GeneratorError>,
    ) -> bool {
        if self.counter() < u64::MAX {
            &&& outcome == Ok::<Seq<char>, GeneratorError>(
                message + decimal_digits(self.counter() as nat),
            )
            &&& next.counter() == self.counter() + 1
        } else {
            &&& outcome == Err::<Seq<char>, GeneratorError>(GeneratorError::CounterExhausted)
            &&& next.counter() == self.counter()
        }
    }

    fn generate_from(&mut self, message: &str) -> (outcome: Result<String, GeneratorError>) {
        if self.counter == u64::MAX {
            return Err(GeneratorError::CounterExhausted);
        }
        let new_message = append_number(message, self.counter);
        self.counter += 1;
        Ok(new_message)
    }
}

/// A generator whose counter stood at `start` has since produced
/// `outputs`, in order, from one message: output `i` is that message
/// followed by `start + i`.
pub proof fn lemma_counter_stream(
    generators: Seq<NaturalNumberMessageGenerator>,
    message: Seq<char>,
    outputs: Seq<Seq<char>>,
)
    requires
        generators.len() == outputs.len() + 1,
        forall|i: int|
            0 <= i < outputs.len() ==> (#[trigger] generators[i]).generates(
                message,
                &generators[i + 1],
                Ok(outputs[i]),
            ),
    ensures
        forall|i: int|
            0 <= i < outputs.len() ==> #[trigger] outputs[i] == message + decimal_digits(
                (generators[0].counter() + i) as nat,
            ),
        forall|i: int|
            0 <= i <= outputs.len() ==> (#[trigger] generators[i]).counter() == generators[0].counter()
                + i,
    decreases outputs.len(),
{
    if outputs.len() > 0 {
        let last = outputs.len() - 1;
        lemma_counter_stream(generators.drop_last(), message, outputs.drop_last());
        assert(generators.drop_last()[last] == generators[last]);
        assert forall|i: int| 0 <= i < outputs.len() implies #[trigger] outputs[i] == message
            + decimal_digits((generators[0].counter() + i) as nat) by {
            if i < last {
                assert(outputs.drop_last()[i] == outputs[i]);
            }
        }
        assert forall|i: int| 0 <= i <= outputs.len() implies (#[trigger] generators[i]).counter()
            == generators[0].counter() + i by {
            if i <= last {
                assert(generators.drop_last()[i] == generators[i]);
            }
        }
    }
}

/// The generator that changes one character: each message is the message
/// handed in with a random character replaced by a random printable one.
/// It remembers nothing between calls.
pub struct RandomChangeMessageGenerator {}

impl Default for RandomChangeMessageGenerator {
    fn default() -> (generator: Self) {
        Self {}
    }
}

impl MessaageGenerator for RandomChangeMessageGenerator {
    open spec fn generates(
        &self,
        message: Seq<char>,
        next: &Self,
        outcome: Result<Seq<char>, GeneratorError>,
    ) -> bool {
        char_changed(message, outcome)
    }

    fn generate_from(&mut self, message: &str) -> (outcome: Result<String, GeneratorError>) {
        transform_message_2(message)
    }
}

/// `transform` accepts every message.
pub open spec fn accepts_all<T: Fn(&str) -> Result<String, GeneratorError>>(transform: T) -> bool {
    forall|message: &str| #[trigger] call_requires(transform, (message,))
}

/// A function from a message to a message, taken as a generator that
/// remembers nothing between calls.
pub struct TransformGenerator<T: Fn(&str) -> Result<String, GeneratorError>> {
    transform: T,
}

impl<T: Fn(&str) -> Result<String, GeneratorError>> TransformGenerator<T> {
    #[verifier::type_invariant]
    spec fn total(self) -> bool {
        accepts_all(self.transform)
    }

    /// The function that the generator calls.
    pub closed spec fn transform(&self) -> T {
        self.transform
    }

    /// A generator that calls `transform`.
    pub fn new(transform: T) -> (generator: Self)
        requires
            accepts_all(transform),
        ensures
            generator.transform() == transform,
    {
        Self { transform }
    }
}

impl<T: Fn(&str) -> Result<String, GeneratorError>> MessaageGenerator for TransformGenerator<T> {
    /// The outcome is one that the function may return for the message,
    /// and the generator stays as it was.
    open spec fn generates(
        &self,
        message: Seq<char>,
        next: &Self,
        outcome: Result<Seq<char>, GeneratorError>,
    ) -> bool {
        &&& next.transform() == self.transform()
        &&& exists|text: &str, returned: Result<String, GeneratorError>|
            {
                &&& text@ == message
                &&& #[trigger] call_ensures(self.transform(), (text,), returned)
                &&& outcome_view(returned) == outcome
            }
    }

    fn generate_from(&mut self, message: &str) -> (outcome: Result<String, GeneratorError>) {
        proof {
            use_type_invariant(&*self);
        }
        let returned = (self.transform)(message);
        assert(call_ensures(self.transform(), (message,), returned));
        returned
    }
}

} // verus!
