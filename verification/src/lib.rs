//! Userland runtime for a trap-based microkernel ABI, modelled against a
//! simulated kernel: a return-code translator, a callback subscription
//! manager, a shared-memory lease manager, and a cooperative yield scheduler.

pub mod error;
pub mod kernel;
pub mod sched;
pub mod shared_mem;
pub mod subscription;

pub use error::Error;
pub use error::error_from_code;
pub use error::result_from_code;
pub use kernel::Callback;
pub use kernel::Kernel;
pub use kernel::command;
pub use kernel::memop;
pub use sched::yieldk;
pub use sched::yieldk_for;
pub use shared_mem::SharedMemory;
pub use subscription::CallbackSubscription;
pub use subscription::EventSink;
pub use subscription::SubscribableCallback;
pub use subscription::c_callback;
pub use subscription::subscribe;
