//! The attacks, the options that steer them and the statistics they report.

pub mod attack;
pub mod attack_options;
pub mod attack_stats;
pub mod collision_search;
pub mod preimage_search;
