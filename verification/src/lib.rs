//! Password hashing off the async scheduler: a worker handle, a dispatch loop and a
//! pluggable hashing strategy.
//!
//! A `PasswordWorker` enqueues commands; a `DispatchLoop` takes them off the queue one
//! by one, runs the hashing strategy on a compute pool of its own and sends each
//! reply on the channel of its command.

pub mod hasher;
pub mod hasher_impls;
pub mod runtime;
pub mod worker;

pub use hasher::Hasher;
pub use hasher_impls::argon2id::{Argon2id, Argon2idConfig};
pub use hasher_impls::bcrypt::{Bcrypt, BcryptConfig};
pub use worker::{
    reply, resolve, settle, DispatchLoop, LoopState, PasswordWorker, PasswordWorkerError,
    PendingReply, PoolFailure, Response, WorkerCommand,
};
