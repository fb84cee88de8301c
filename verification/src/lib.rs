//! Verified core of a Monte-Carlo experiment that measures the bias
//! introduced by in-sample parameter optimization of a moving-average
//! crossover trading rule.
//!
//! The two pieces that carry the logic are verified here: the
//! deterministic multiply-with-carry random generator that drives every
//! synthetic price path, and the grid-search selection rule that picks
//! the best-scoring window pair. The floating-point scoring of a window
//! pair lives outside the verified core and hands its results in as
//! order-preserving integer keys.

pub mod rng;
pub mod search;

pub use rng::MarsagliaRng;
pub use rng::MarsagliaRngDist;
pub use search::Selection;
pub use search::select_best_pair;
