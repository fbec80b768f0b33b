//! Spin-style synchronization and lazy-initialization primitives,
//! modelled and verified sequentially: a one-time initialization
//! barrier ([`once::Once`]), a mutual-exclusion lock
//! ([`mutex::Mutex`]), a write-once cell ([`once_lock::OnceLock`])
//! and a lazily computed value ([`lazy_lock::LazyLock`]).
//!
//! The write-once cell and the lazy value are both built on the
//! barrier, reusing its exactly-once discipline instead of
//! duplicating it.

pub mod lazy_lock;
pub mod mutex;
pub mod once;
pub mod once_lock;
