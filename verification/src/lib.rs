//! Measuring what two classical attacks on a truncated hash function cost:
//! a random search for a second preimage, and the birthday search for a
//! collision.
//!
//! The attacks are in `attacks`, the generators that feed them in
//! `message_gen`, the truncated hash in `truncated_hash`. What the crate
//! takes on trust is little: one call into `sha2`, three into `rand` and
//! one into the standard library, each behind a function whose contract
//! says what is believed of it.

pub mod attacks;
pub mod message_gen;
mod random;
pub mod run_message;
pub mod text;
pub mod truncated_hash;

pub use attacks::attack::{Attack, SearchEnd};
pub use attacks::attack_options::AttackOptions;
pub use attacks::attack_stats::{AttackStats, CumulativeAttackStats, StatsError};
pub use attacks::collision_search::{bd_attack, Collision, CollisionSearch};
pub use attacks::preimage_search::{pre_attack, RandomPreimageSearch};
pub use message_gen::{
    transform_message_1, transform_message_2, GeneratorError, MessaageGenerator,
    NaturalNumberMessageGenerator, RandomChangeMessageGenerator, TransformGenerator,
};
pub use run_message::prepare_run_unique_message;
pub use truncated_hash::{my_hash_16, my_hash_32};
