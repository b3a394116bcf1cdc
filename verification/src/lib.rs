//! Proof-of-work admission and difficulty adjustment for a block DAG node,
//! together with the signal/slot records and the typed state database that
//! sit beside it.

pub mod bytes;
pub mod difficulty;
pub mod digest_map;
pub mod hash;
pub mod parameters;
pub mod pow;
pub mod resolver;
pub mod signal;
pub mod statedb;
pub mod storage;
pub mod uint;
