use vstd::prelude::*;

verus! {

/// How an attack picks the message that the next candidate is derived from.
///
/// With the incremental transform switched off (the default), every candidate
/// is derived from the initial message. With it switched on, each candidate
/// is derived from the candidate before it.
#[derive(Clone, Copy, Debug)]
pub struct AttackOptions {
    incremental_transform: bool,
}

impl Default for AttackOptions {
    fn default() -> (options: Self)
        ensures
            !options.incremental_transform(),
    {
        Self { incremental_transform: false }
    }
}

impl AttackOptions {
    /// Whether each candidate is derived from the candidate before it.
    pub closed spec fn spec_incremental_transform(&self) -> bool {
        self.incremental_transform
    }

    /// Whether each candidate is derived from the candidate before it.
    #[verifier::when_used_as_spec(spec_incremental_transform)]
    pub fn incremental_transform(&self) -> (incremental: bool)
        ensures
            incremental == self.incremental_transform(),
    {
        self.incremental_transform
    }

    /// The same options with the incremental transform switched on or off.
    pub fn set_incremental_transform(self, incremental_transform: bool) -> (options: Self)
        ensures
            options.incremental_transform() == incremental_transform,
    {
        Self { incremental_transform }
    }
}

} // verus!
