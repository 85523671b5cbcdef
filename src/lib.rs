//! Synchronization and shared-ownership primitives over atomic words.
//!
//! Each primitive here owns its atomic state words and offers every protocol
//! step that finishes by itself: one acquisition round, a release, a notify.
//! The decision each step takes from the value it observed is a plain
//! function with an exact contract, and the laws of each protocol are proved
//! over an abstract model of the shared state.
pub mod arc;
pub mod condvar;
mod futex;
pub mod mutex;
pub mod oneshot_channel;
pub mod rwlock;
pub mod spin_lock;

pub use arc::ArcCounts;
pub use condvar::Condvar;
pub use mutex::{Mutex, MutexGuard};
pub use oneshot_channel::{OneshotChannel, Receiver, Sender};
pub use rwlock::{ReadGuard, RwLock, WriteGuard};
pub use spin_lock::{Guard, SpinLock};
