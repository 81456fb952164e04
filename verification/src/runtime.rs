//! The outside machinery that the worker stands on: the command queue, the
//! single-use reply channel and the compute pool.

use vstd::prelude::*;

verus! {

#[verifier::external_type_specification]
#[verifier::external_body]
#[verifier::reject_recursive_types(T)]
pub struct ExQueueSender<T>(crossbeam_channel::Sender<T>);

#[verifier::external_type_specification]
#[verifier::external_body]
#[verifier::reject_recursive_types(T)]
pub struct ExQueueReceiver<T>(crossbeam_channel::Receiver<T>);

#[verifier::external_type_specification]
#[verifier::external_body]
#[verifier::reject_recursive_types(T)]
pub struct ExQueueSendError<T>(crossbeam_channel::SendError<T>);

#[verifier::external_type_specification]
#[verifier::external_body]
pub struct ExQueueRecvError(crossbeam_channel::RecvError);

#[verifier::external_type_specification]
#[verifier::external_body]
#[verifier::reject_recursive_types(T)]
pub struct ExReplySender<T>(tokio::sync::oneshot::Sender<T>);

#[verifier::external_type_specification]
#[verifier::external_body]
#[verifier::reject_recursive_types(T)]
pub struct ExReplyReceiver<T>(tokio::sync::oneshot::Receiver<T>);

#[verifier::external_type_specification]
#[verifier::external_body]
pub struct ExReplyRecvError(tokio::sync::oneshot::error::RecvError);

/// Declared with its two variants, `Empty` and `Closed`, which `settle` tells apart.
#[verifier::external_type_specification]
pub struct ExReplyTryRecvError(tokio::sync::oneshot::error::TryRecvError);

#[verifier::external_type_specification]
#[verifier::external_body]
pub struct ExThreadPool(rayon::ThreadPool);

#[verifier::external_type_specification]
#[verifier::external_body]
pub struct ExThreadPoolBuildError(rayon::ThreadPoolBuildError);

/// `crossbeam_channel::unbounded`: the two ends of a new queue without a limit.
pub assume_specification<T>[ crossbeam_channel::unbounded::<T> ]() -> (ends: (
    crossbeam_channel::Sender<T>,
    crossbeam_channel::Receiver<T>,
));

/// `Sender::send` of `crossbeam_channel`: puts the message on the queue, or fails
/// where the receiving end is gone. Nothing is claimed of which of the two happens.
pub assume_specification<T>[ crossbeam_channel::Sender::<T>::send ](
    sender: &crossbeam_channel::Sender<T>,
    msg: T,
) -> (res: Result<(), crossbeam_channel::SendError<T>>);

/// `Sender::clone` of `crossbeam_channel`: one more sending end of the same queue.
pub assume_specification<T>[ <crossbeam_channel::Sender<T> as Clone>::clone ](
    sender: &crossbeam_channel::Sender<T>,
) -> (other: crossbeam_channel::Sender<T>);

/// `Receiver::recv` of `crossbeam_channel`: the next message, or an error once the
/// queue is empty and every sender is gone. It blocks until one of the two holds.
pub assume_specification<T>[ crossbeam_channel::Receiver::<T>::recv ](
    receiver: &crossbeam_channel::Receiver<T>,
) -> (res: Result<T, crossbeam_channel::RecvError>);

/// `oneshot::channel` of `tokio`: the two ends of a new single-use channel.
pub assume_specification<T>[ tokio::sync::oneshot::channel::<T> ]() -> (ends: (
    tokio::sync::oneshot::Sender<T>,
    tokio::sync::oneshot::Receiver<T>,
));

/// `oneshot::Sender::send` of `tokio`: where the receiver is gone, the value comes
/// back as the error.
pub assume_specification<T>[ tokio::sync::oneshot::Sender::<T>::send ](
    sender: tokio::sync::oneshot::Sender<T>,
    value: T,
) -> (res: Result<(), T>)
    ensures
        res is Err ==> res->Err_0 == value,
;

/// `oneshot::Receiver::try_recv` of `tokio`: the value if it was sent, else whether
/// the channel is still open.
pub assume_specification<T>[ tokio::sync::oneshot::Receiver::<T>::try_recv ](
    receiver: &mut tokio::sync::oneshot::Receiver<T>,
) -> (res: Result<T, tokio::sync::oneshot::error::TryRecvError>);

/// `ThreadPool::install` of `rayon`: runs `op` on a thread of the pool, waits for it
/// and returns what it returned.
pub assume_specification<OP, R>[ rayon::ThreadPool::install::<OP, R> ](
    pool: &rayon::ThreadPool,
    op: OP,
) -> (res: R) where OP: FnOnce() -> R + Send, R: Send
    requires
        call_requires(op, ()),
    ensures
        call_ensures(op, (), res),
;

/// The number of threads of a `rayon` pool, which `ThreadPool::current_num_threads`
/// returns.
pub uninterp spec fn pool_threads(pool: rayon::ThreadPool) -> nat;

/// `ThreadPool::current_num_threads` of `rayon`: the number of threads that the pool
/// was built with.
pub assume_specification[ rayon::ThreadPool::current_num_threads ](
    pool: &rayon::ThreadPool,
) -> (count: usize)
    ensures
        count == pool_threads(*pool),
;

/// Builds a `rayon` pool with
/// `ThreadPoolBuilder::new().num_threads(max_threads).build()`. A pool that was asked
/// for by a positive number has as many threads, but for the limit that `rayon` puts
/// on the size of a pool, which is no less than 255.
#[verifier::external_body]
pub(crate) fn build_pool(max_threads: usize) -> (res: Result<
    rayon::ThreadPool,
    rayon::ThreadPoolBuildError,
>)
    ensures
        res is Ok && max_threads > 0 ==> 1 <= pool_threads(res->Ok_0) <= max_threads,
        res is Ok && 0 < max_threads <= 255 ==> pool_threads(res->Ok_0) == max_threads,
{
    rayon::ThreadPoolBuilder::new().num_threads(max_threads).build()
}

} // verus!
