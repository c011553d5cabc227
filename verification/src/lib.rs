//! Decision logic of the pthreads-embedded OS layer for Redox: result codes,
//! the futex mutex protocol, the thread registry and thread-local storage.

pub mod result;
pub mod mutex;
pub mod mutex_laws;
pub mod thread;
pub mod tls;
pub mod atomic;
