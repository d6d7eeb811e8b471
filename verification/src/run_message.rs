use crate::message_gen::GeneratorError;
use crate::random::{random_below, random_graphic_char};
use crate::text::{is_graphic, push_char};
use vstd::prelude::*;
use vstd::string::*;

verus! {

/// The initial message of one run: a prefix, the base message, a space and
/// a suffix.
pub open spec fn run_message(prefix: Seq<char>, base: Seq<char>, suffix: Seq<char>) -> Seq<char> {
    prefix + base + seq![' '] + suffix
}

/// Every character of `text` is a printable ASCII character other than the
/// space.
pub open spec fn all_graphic(text: Seq<char>) -> bool {
    forall|i: int| 0 <= i < text.len() ==> is_graphic(#[trigger] text[i])
}

/// Puts the initial message of one run together from its parts.
pub fn compose_run_message(prefix: &str, base: &str, suffix: &str) -> (message: String)
    ensures
        message@ == run_message(prefix@, base@, suffix@),
{
    let mut message = String::from_str(prefix);
    message.append(base);
    push_char(&mut message, ' ');
    message.append(suffix);
    message
}

/// An initial message that tells one run from another: `prefix`, `base`, a
/// space, and a random suffix of fewer than `suffix_limit` printable ASCII
/// characters. A limit of 0 leaves no length to draw and is refused.
pub fn prepare_run_unique_message(prefix: &str, base: &str, suffix_limit: usize) -> (outcome:
    Result<String, GeneratorError>)
    ensures
        match outcome {
            Ok(message) => suffix_limit > 0 && exists|suffix: Seq<char>|
                {
                    &&& suffix.len() < suffix_limit
                    &&& all_graphic(suffix)
                    &&& message@ == #[trigger] run_message(prefix@, base@, suffix)
                },
            Err(error) => suffix_limit == 0 && error == GeneratorError::InvalidInput,
        },
{
    if suffix_limit == 0 {
        return Err(GeneratorError::InvalidInput);
    }
    let length = random_below(suffix_limit);
    let mut suffix = String::new();
    let mut drawn: usize = 0;
    while drawn < length
        invariant
            drawn <= length,
            suffix@.len() == drawn,
            all_graphic(suffix@),
        decreases length - drawn,
    {
        let c = random_graphic_char();
        push_char(&mut suffix, c);
        drawn += 1;
    }
    let message = compose_run_message(prefix, base, suffix.as_str());
    Ok(message)
}

} // verus!
