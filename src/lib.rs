//! Turn resolution for a role-play combat: stat derivation, weapon effects and
//! the two-stage, threshold-bucketed attack exchange.
//!
//! Every stat is held in quarters of a point (a value of `21` reads 5.25),
//! thresholds are held in thousandths of a point, and all arithmetic is exact.
pub mod quarter;
pub mod stats;
pub mod adventurer;
pub mod weapon;
pub mod resolve;
pub mod combat;
