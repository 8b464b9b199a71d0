//! Synthetic scrobble generation: pools of unique, randomly composed names
//! and the records and request queries built from them.

mod corpus;
mod pool;
mod query;
mod rng;

pub use corpus::{corpus_cardinality, title_case, PoolError};
pub use pool::{add_unique, random_vec, record_draw, RandomData, LONG_NAME_WORDS, SHORT_NAME_WORDS};
pub use query::{push_decimal, Scrobble};
