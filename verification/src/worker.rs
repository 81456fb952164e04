use crate::hasher::Hasher;
use crate::runtime::{build_pool, pool_threads};
use vstd::prelude::*;
use vstd::utf8::encode_utf8;

verus! {

/// Why no compute pool could be set up.
#[derive(Debug)]
pub enum PoolFailure {
    /// A pool of no threads was asked for.
    NoThreads,
    /// The threads could not be provisioned.
    Build(rayon::ThreadPoolBuildError),
}

/// Errors that can occur in the `PasswordWorker`.
#[derive(Debug)]
pub enum PasswordWorkerError<H: Hasher> {
    /// The hashing strategy rejected its input.
    Hashing(H::Error),
    /// The command could not be enqueued: the dispatch loop is gone.
    ChannelSend,
    /// The reply channel was abandoned before a reply arrived.
    ChannelRecv,
    /// The compute pool could not be set up.
    ThreadPool(PoolFailure),
}

/// One request to the dispatch loop, with the channel on which its reply is due.
#[verifier::reject_recursive_types(H)]
#[derive(Debug)]
pub enum WorkerCommand<H: Hasher> {
    /// Hash the password under the configuration.
    Hash(String, H::Config, tokio::sync::oneshot::Sender<Result<String, PasswordWorkerError<H>>>),
    /// Verify the password against the encoded hash.
    Verify(String, String, tokio::sync::oneshot::Sender<Result<bool, PasswordWorkerError<H>>>),
}

/// The two states of the dispatch loop.
#[derive(Clone, Copy, Debug, PartialEq, Eq, Structural)]
pub enum LoopState {
    /// Waiting on the command queue.
    Running,
    /// The command queue is closed: the loop is over.
    Terminated,
}

/// The reply to give for what the hashing strategy returned: its value, or its error
/// as a `Hashing` error.
pub fn reply<T, H: Hasher>(outcome: Result<T, H::Error>) -> (reply: Result<
    T,
    PasswordWorkerError<H>,
>)
    ensures
        reply == reply_of::<T, H>(outcome),
{
    match outcome {
        Ok(value) => Ok(value),
        Err(error) => Err(PasswordWorkerError::Hashing(error)),
    }
}

/// The reply that stands for an outcome of the hashing strategy.
pub open spec fn reply_of<T, H: Hasher>(outcome: Result<T, H::Error>) -> Result<
    T,
    PasswordWorkerError<H>,
> {
    match outcome {
        Ok(value) => Ok(value),
        Err(error) => Err(PasswordWorkerError::Hashing(error)),
    }
}

/// What a caller finds at the end of its wait on the reply channel: the reply, or
/// `ChannelRecv` where the channel was abandoned without one.
pub fn resolve<T, H: Hasher>(
    received: Result<Result<T, PasswordWorkerError<H>>, tokio::sync::oneshot::error::RecvError>,
) -> (res: Result<T, PasswordWorkerError<H>>)
    ensures
        received is Ok ==> res == received->Ok_0,
        received is Err ==> res matches Err(PasswordWorkerError::ChannelRecv),
{
    match received {
        Ok(reply) => reply,
        Err(_) => Err(PasswordWorkerError::ChannelRecv),
    }
}

/// What a look at the reply channel means for the caller: nothing yet while the
/// channel is empty, the reply once it is there, and `ChannelRecv` where the channel
/// was closed without one.
pub fn settle<T, H: Hasher>(
    polled: Result<Result<T, PasswordWorkerError<H>>, tokio::sync::oneshot::error::TryRecvError>,
) -> (res: Option<Result<T, PasswordWorkerError<H>>>)
    ensures
        res == settled::<T, H>(polled),
{
    match polled {
        Ok(reply) => Some(reply),
        Err(tokio::sync::oneshot::error::TryRecvError::Empty) => None,
        Err(tokio::sync::oneshot::error::TryRecvError::Closed) => Some(
            Err(PasswordWorkerError::ChannelRecv),
        ),
    }
}

/// What `settle` returns.
pub open spec fn settled<T, H: Hasher>(
    polled: Result<Result<T, PasswordWorkerError<H>>, tokio::sync::oneshot::error::TryRecvError>,
) -> Option<Result<T, PasswordWorkerError<H>>> {
    match polled {
        Ok(reply) => Some(reply),
        Err(tokio::sync::oneshot::error::TryRecvError::Empty) => None,
        Err(tokio::sync::oneshot::error::TryRecvError::Closed) => Some(
            Err(PasswordWorkerError::ChannelRecv),
        ),
    }
}

/// A reply that is still due: the receiving end of the reply channel of one request.
/// The channel carries one reply: once a look at it has found the reply, or found the
/// channel abandoned, the pending reply is taken and has nothing more to give.
#[verifier::reject_recursive_types(T)]
#[verifier::reject_recursive_types(H)]
pub struct PendingReply<T, H: Hasher> {
    receiver: tokio::sync::oneshot::Receiver<Result<T, PasswordWorkerError<H>>>,
    taken: bool,
}

impl<T, H: Hasher> PendingReply<T, H> {
    /// What enqueueing a command means for its caller: the reply is due on
    /// `receiver` where the queue took the command, and `ChannelSend` is the error
    /// where it did not.
    pub fn enqueued(
        sent: Result<(), crossbeam_channel::SendError<WorkerCommand<H>>>,
        receiver: tokio::sync::oneshot::Receiver<Result<T, PasswordWorkerError<H>>>,
    ) -> (res: Result<PendingReply<T, H>, PasswordWorkerError<H>>)
        ensures
            sent is Ok ==> res is Ok && res->Ok_0.receiver() == receiver
                && !res->Ok_0.is_taken(),
            sent is Err ==> res matches Err(PasswordWorkerError::ChannelSend),
    {
        match sent {
            Ok(()) => Ok(PendingReply { receiver, taken: false }),
            Err(_) => Err(PasswordWorkerError::ChannelSend),
        }
    }

    /// Whether a look at the channel has already found the reply, or found the
    /// channel abandoned.
    pub closed spec fn is_taken(self) -> bool {
        self.taken
    }

    /// The receiving end that this pending reply waits on.
    pub closed spec fn receiver(self) -> tokio::sync::oneshot::Receiver<
        Result<T, PasswordWorkerError<H>>,
    > {
        self.receiver
    }

    /// Tells whether a look at the channel has already taken what it holds.
    pub fn taken(&self) -> (taken: bool)
        ensures
            taken == self.is_taken(),
    {
        self.taken
    }

    /// Gives up the receiving end, for a caller that waits on it by its own means and
    /// hands what it received to `resolve`. A pending reply that was taken has no
    /// receiving end to wait on.
    pub fn into_receiver(self) -> (receiver: tokio::sync::oneshot::Receiver<
        Result<T, PasswordWorkerError<H>>,
    >)
        requires
            !self.is_taken(),
        ensures
            receiver == self.receiver(),
    {
        self.receiver
    }

    /// Looks for the reply without waiting: `None` while it is still due. What the
    /// look finds is taken, so a reply comes once: every later look gives
    /// `ChannelRecv`.
    pub fn try_take(&mut self) -> (res: Option<Result<T, PasswordWorkerError<H>>>)
        ensures
            old(self).is_taken() ==> res matches Some(Err(PasswordWorkerError::ChannelRecv)),
            old(self).is_taken() ==> final(self).is_taken(),
            !old(self).is_taken() ==> (final(self).is_taken() <==> res is Some),
    {
        if self.taken {
            return Some(Err(PasswordWorkerError::ChannelRecv));
        }
        let found = settle(self.receiver.try_recv());
        if found.is_some() {
            self.taken = true;
        }
        found
    }
}

/// The reply that the dispatch loop has ready for one command, with the channel on
/// which it is due.
#[verifier::reject_recursive_types(H)]
pub enum Response<H: Hasher> {
    /// The reply to a `Hash` command.
    Hashed(
        tokio::sync::oneshot::Sender<Result<String, PasswordWorkerError<H>>>,
        Result<String, PasswordWorkerError<H>>,
    ),
    /// The reply to a `Verify` command.
    Verified(
        tokio::sync::oneshot::Sender<Result<bool, PasswordWorkerError<H>>>,
        Result<bool, PasswordWorkerError<H>>,
    ),
}

impl<H: Hasher> Response<H> {
    /// Whether this is a response to `command`: it goes to the channel of the
    /// command, and it holds what the hashing strategy may return for the bytes of
    /// the password, a failure as a `Hashing` error with the strategy's own error.
    pub open spec fn answers(self, command: WorkerCommand<H>) -> bool {
        match command {
            WorkerCommand::Hash(password, config, reply_to) => {
                &&& self matches Response::Hashed(sender, reply)
                &&& sender == reply_to
                &&& exists|outcome: Result<String, H::Error>|
                    #![trigger H::hashes_to(encode_utf8(password@), &config, outcome)]
                    H::hashes_to(encode_utf8(password@), &config, outcome) && reply == reply_of::<
                        String,
                        H,
                    >(outcome)
            },
            WorkerCommand::Verify(password, hash, reply_to) => {
                &&& self matches Response::Verified(sender, reply)
                &&& sender == reply_to
                &&& reply == reply_of::<bool, H>(
                    H::verify_result(encode_utf8(password@), hash@),
                )
            },
        }
    }

    /// Sends the reply on its channel and tells whether the channel took it. A caller
    /// that has given up its wait has closed the channel: the reply is then dropped.
    pub fn deliver(self) -> (delivered: bool) {
        match self {
            Response::Hashed(reply_to, reply) => reply_to.send(reply).is_ok(),
            Response::Verified(reply_to, reply) => reply_to.send(reply).is_ok(),
        }
    }
}

/// The receiving side of a worker: the command queue's end and the compute pool that
/// the hashing runs on. One thread is to call `serve_next` on it for as long as that
/// returns `Running`. That thread should belong to no `rayon` pool: while it waits
/// for the compute pool, such a thread would take up other tasks of its own pool.
#[verifier::reject_recursive_types(H)]
pub struct DispatchLoop<H: Hasher> {
    receiver: crossbeam_channel::Receiver<WorkerCommand<H>>,
    pool: rayon::ThreadPool,
}

impl<H: Hasher> DispatchLoop<H> {
    /// The compute pool that the hashing runs on.
    pub closed spec fn pool(self) -> rayon::ThreadPool {
        self.pool
    }

    /// Computes the response to one command on the compute pool.
    pub fn answer(&self, command: WorkerCommand<H>) -> (response: Response<H>)
        ensures
            response.answers(command),
    {
        match command {
            WorkerCommand::Hash(password, config, reply_to) => {
                let data = password.as_str().as_bytes();
                let op = || -> (outcome: Result<String, H::Error>)
                    ensures
                        H::hashes_to(data@, &config, outcome),
                    { H::hash(data, &config) };
                let outcome = self.pool.install(op);
                Response::Hashed(reply_to, reply::<String, H>(outcome))
            },
            WorkerCommand::Verify(password, hash, reply_to) => {
                let data = password.as_str().as_bytes();
                let encoded = hash.as_str();
                let op = || -> (outcome: Result<bool, H::Error>)
                    ensures
                        outcome == H::verify_result(data@, encoded@),
                    { H::verify(data, encoded) };
                let outcome = self.pool.install(op);
                Response::Verified(reply_to, reply::<bool, H>(outcome))
            },
        }
    }

    /// One turn of the loop on what the wait on the queue gave: for a command, the
    /// loop runs on and the response to the command is ready to be delivered; a
    /// closed queue ends the loop, with nothing to deliver.
    pub fn handle(
        &self,
        event: Result<WorkerCommand<H>, crossbeam_channel::RecvError>,
    ) -> (turn: (LoopState, Option<Response<H>>))
        ensures
            match event {
                Ok(command) => {
                    &&& turn.0 == LoopState::Running
                    &&& turn.1 matches Some(response) && response.answers(command)
                },
                Err(_) => turn.0 == LoopState::Terminated && turn.1 is None,
            },
    {
        match event {
            Ok(command) => (LoopState::Running, Some(self.answer(command))),
            Err(_) => (LoopState::Terminated, None),
        }
    }

    /// One turn of the loop with its delivery: handles what the wait on the queue
    /// gave and sends the response on its channel. The loop runs on after every
    /// command, whether or not the caller still waited for the response; only a
    /// closed queue ends it.
    pub fn serve(
        &self,
        event: Result<WorkerCommand<H>, crossbeam_channel::RecvError>,
    ) -> (state: LoopState)
        ensures
            event is Ok ==> state == LoopState::Running,
            event is Err ==> state == LoopState::Terminated,
    {
        let (state, response) = self.handle(event);
        match response {
            Some(response) => {
                let _ = response.deliver();
            },
            None => {},
        }
        state
    }

    /// Waits for the next command and serves it. The loop is over once every worker
    /// handle is gone and the queue is empty.
    pub fn serve_next(&self) -> (state: LoopState) {
        self.serve(self.receiver.recv())
    }

    /// The number of threads of the compute pool.
    pub fn threads(&self) -> (count: usize)
        ensures
            count == pool_threads(self.pool()),
    {
        self.pool.current_num_threads()
    }
}

/// The handle through which callers submit their requests. A clone shares the queue:
/// the dispatch loop ends when the last handle is gone.
#[verifier::reject_recursive_types(H)]
#[derive(Debug)]
pub struct PasswordWorker<H: Hasher> {
    sender: crossbeam_channel::Sender<WorkerCommand<H>>,
}

impl<H: Hasher> Clone for PasswordWorker<H> {
    fn clone(&self) -> (handle: Self) {
        PasswordWorker { sender: self.sender.clone() }
    }
}

impl<H: Hasher> PasswordWorker<H> {
    /// Sets up a worker with a compute pool of `max_threads` threads: the handle, and
    /// the dispatch loop that a thread of its own is to run. A pool of no threads is
    /// refused, and so is one whose threads cannot be provisioned. `rayon` limits the
    /// size of a pool; a pool of up to 255 threads has the size asked for.
    pub fn new(max_threads: usize) -> (res: Result<
        (PasswordWorker<H>, DispatchLoop<H>),
        PasswordWorkerError<H>,
    >)
        ensures
            max_threads == 0 ==> res matches Err(
                PasswordWorkerError::ThreadPool(PoolFailure::NoThreads),
            ),
            max_threads > 0 ==> res is Ok || res matches Err(
                PasswordWorkerError::ThreadPool(PoolFailure::Build(_)),
            ),
            res matches Ok(made) ==> 1 <= pool_threads(made.1.pool()) <= max_threads,
            res matches Ok(made) ==> max_threads <= 255 ==> pool_threads(made.1.pool())
                == max_threads,
    {
        if max_threads == 0 {
            return Err(PasswordWorkerError::ThreadPool(PoolFailure::NoThreads));
        }
        Self::with_pool(build_pool(max_threads))
    }

    /// The worker on a pool that was built, or the failure to build one as the
    /// worker's error.
    pub fn with_pool(built: Result<rayon::ThreadPool, rayon::ThreadPoolBuildError>) -> (res: Result<
        (PasswordWorker<H>, DispatchLoop<H>),
        PasswordWorkerError<H>,
    >)
        ensures
            match built {
                Ok(pool) => res is Ok && res->Ok_0.1.pool() == pool,
                Err(failure) => res matches Err(
                    PasswordWorkerError::ThreadPool(PoolFailure::Build(found)),
                ) && found == failure,
            },
    {
        match built {
            Ok(pool) => {
                let (sender, receiver) = crossbeam_channel::unbounded::<WorkerCommand<H>>();
                Ok((PasswordWorker { sender }, DispatchLoop { receiver, pool }))
            },
            Err(failure) => Err(PasswordWorkerError::ThreadPool(PoolFailure::Build(failure))),
        }
    }

    /// The command that asks for the hash of `password` under `config`, with the
    /// reply due on `reply_to`: the caller's values as they came.
    pub fn hash_command(
        password: String,
        config: H::Config,
        reply_to: tokio::sync::oneshot::Sender<Result<String, PasswordWorkerError<H>>>,
    ) -> (command: WorkerCommand<H>)
        ensures
            command == WorkerCommand::Hash(password, config, reply_to),
    {
        WorkerCommand::Hash(password, config, reply_to)
    }

    /// The command that asks whether `password` matches the encoded `hash`, with the
    /// reply due on `reply_to`: the caller's values as they came.
    pub fn verify_command(
        password: String,
        hash: String,
        reply_to: tokio::sync::oneshot::Sender<Result<bool, PasswordWorkerError<H>>>,
    ) -> (command: WorkerCommand<H>)
        ensures
            command == WorkerCommand::Verify(password, hash, reply_to),
    {
        WorkerCommand::Verify(password, hash, reply_to)
    }

    /// Asks the dispatch loop to hash `password` under `config`, and returns the
    /// reply that is then due. It fails with `ChannelSend` where the loop is gone.
    pub fn hash(&self, password: String, config: H::Config) -> (res: Result<
        PendingReply<String, H>,
        PasswordWorkerError<H>,
    >)
        ensures
            res matches Err(error) ==> error is ChannelSend,
            res matches Ok(pending) ==> !pending.is_taken(),
    {
        let (reply_to, receiver) = tokio::sync::oneshot::channel();
        let sent = self.sender.send(Self::hash_command(password, config, reply_to));
        PendingReply::enqueued(sent, receiver)
    }

    /// Asks the dispatch loop to verify `password` against the encoded `hash`, and
    /// returns the reply that is then due. It fails with `ChannelSend` where the loop
    /// is gone.
    pub fn verify(&self, password: String, hash: String) -> (res: Result<
        PendingReply<bool, H>,
        PasswordWorkerError<H>,
    >)
        ensures
            res matches Err(error) ==> error is ChannelSend,
            res matches Ok(pending) ==> !pending.is_taken(),
    {
        let (reply_to, receiver) = tokio::sync::oneshot::channel();
        let sent = self.sender.send(Self::verify_command(password, hash, reply_to));
        PendingReply::enqueued(sent, receiver)
    }
}

/// A hash that the worker made verifies: where the dispatch loop has answered a
/// `Hash` command with a hash, every response to a `Verify` command for the same
/// password and that hash reports a match.
pub proof fn lemma_hashed_password_verifies<H: Hasher>(
    hash_command: WorkerCommand<H>,
    hashed: Response<H>,
    verify_command: WorkerCommand<H>,
    verified: Response<H>,
)
    requires
        hashed.answers(hash_command),
        verified.answers(verify_command),
        hash_command is Hash,
        verify_command is Verify,
        hashed matches Response::Hashed(_, Ok(hash)) && verify_command->Verify_1@ == hash@,
        verify_command->Verify_0@ == hash_command->Hash_0@,
    ensures
        verified matches Response::Verified(_, Ok(true)),
{
    let data = encode_utf8(hash_command->Hash_0@);
    let config = hash_command->Hash_1;
    let outcome = choose|outcome: Result<String, H::Error>|
        #![trigger H::hashes_to(data, &config, outcome)]
        H::hashes_to(data, &config, outcome) && hashed->Hashed_1 == reply_of::<String, H>(
            outcome,
        );
    H::hash_verifies(data, &config, outcome);
}

} // verus!
