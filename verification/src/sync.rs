//! Try-lock primitives: a flag, a guarded cell, a guarded external region and
//! a deferred-init cell.

pub mod composition;
pub mod flag;
pub mod history;
pub mod lazy_lock;
pub mod mutex;
pub mod mutex_ptr;

pub use flag::Flag;
pub use flag::FlagGuard;
pub use lazy_lock::LazyLock;
pub use mutex::Mutex;
pub use mutex::MutexGuard;
pub use mutex::LazyMutex;
pub use mutex::MutexOnLock;
pub use mutex::MutexPtr;
pub use mutex::MutexPtrGuard;
