//! A work queue over a fixed pool of worker threads. A producer submits
//! tasks one at a time; a single-producer/multi-consumer channel fans them
//! out so that exactly one worker receives any given task; each worker runs
//! the task and forwards its output, if any, into a shared
//! multi-producer/single-consumer result channel that one consumer drains.
//! Shutdown closes the task channel, discards the tasks still waiting in it,
//! waits for every worker loop to finish, and releases the pool, after which
//! the queue is inert.

use vstd::prelude::*;

verus! {

/// A unit of work: run once, synchronously, to completion, optionally
/// yielding one output value.
pub trait Task {
    type Output: Send;

    fn run(&self) -> Option<Self::Output>;
}

/// The error of a submission after the queue was closed; it hands the
/// rejected task back to the caller.
pub struct ClosedError<T>(pub T);

/// Why a receive returned no result: the channel held nothing right now, the
/// wait timed out, or the queue was shut down and fully drained.
#[derive(Debug, PartialEq, Eq)]
pub enum RecvError {
    Empty,
    Timeout,
    Disconnected,
}

#[verifier::external_type_specification]
#[verifier::external_body]
#[verifier::reject_recursive_types(T)]
pub struct ExSpmcSender<T: Send>(spmc::Sender<T>);

#[verifier::external_type_specification]
#[verifier::external_body]
#[verifier::reject_recursive_types(T)]
pub struct ExSpmcReceiver<T: Send>(spmc::Receiver<T>);

#[verifier::external_type_specification]
#[verifier::external_body]
#[verifier::reject_recursive_types(T)]
pub struct ExMpscSender<T>(std::sync::mpsc::Sender<T>);

#[verifier::external_type_specification]
#[verifier::external_body]
#[verifier::reject_recursive_types(T)]
pub struct ExMpscReceiver<T>(std::sync::mpsc::Receiver<T>);

#[verifier::external_type_specification]
#[verifier::external_body]
#[verifier::reject_recursive_types(T)]
pub struct ExMpscIter<'a, T: 'a>(std::sync::mpsc::Iter<'a, T>);

#[verifier::external_type_specification]
#[verifier::external_body]
pub struct ExThreadPool(threadpool::ThreadPool);

/// Relies on `spmc::channel`: returns the two connected halves of a new
/// single-producer/multi-consumer channel.
#[verifier::external_body]
fn task_channel<T: Send>() -> (spmc::Sender<T>, spmc::Receiver<T>) {
    spmc::channel()
}

/// Relies on `spmc::Sender::send`: the value is queued, or handed back
/// inside the error when every receiver is gone.
#[verifier::external_body]
fn task_send<T: Send>(tx: &mut spmc::Sender<T>, t: T) -> (r: Result<(), ClosedError<T>>)
    ensures
        r matches Err(e) ==> e.0 == t,
{
    match tx.send(t) {
        Ok(()) => Ok(()),
        Err(spmc::SendError(v)) => Err(ClosedError(v)),
    }
}

/// Relies on `spmc::Receiver::recv`: blocks until a value arrives, and fails
/// only once the sender is gone and the channel is drained.
#[verifier::external_body]
fn task_recv<T: Send>(rx: &spmc::Receiver<T>) -> (r: Result<T, RecvError>)
    ensures
        r matches Err(e) ==> e is Disconnected,
{
    match rx.recv() {
        Ok(t) => Ok(t),
        Err(spmc::RecvError) => Err(RecvError::Disconnected),
    }
}

/// Relies on `spmc::Receiver::try_recv`: never blocks and never panics; it
/// fails when the channel holds nothing right now, or for good once the
/// sender is gone and the channel is drained.
#[verifier::external_body]
fn task_try_recv<T: Send>(rx: &spmc::Receiver<T>) -> (r: Result<T, RecvError>)
    ensures
        r matches Err(e) ==> e is Empty || e is Disconnected,
    opens_invariants none
    no_unwind
{
    match rx.try_recv() {
        Ok(t) => Ok(t),
        Err(spmc::TryRecvError::Empty) => Err(RecvError::Empty),
        Err(spmc::TryRecvError::Disconnected) => Err(RecvError::Disconnected),
    }
}

/// Relies on `spmc::Receiver::clone`: another handle on the same channel.
#[verifier::external_body]
fn task_receiver_clone<T: Send>(rx: &spmc::Receiver<T>) -> spmc::Receiver<T> {
    rx.clone()
}

/// Relies on `std::sync::mpsc::channel`: returns the two connected halves of
/// a new multi-producer/single-consumer channel.
#[verifier::external_body]
fn output_channel<T>() -> (std::sync::mpsc::Sender<T>, std::sync::mpsc::Receiver<T>) {
    std::sync::mpsc::channel()
}

/// Relies on `std::sync::mpsc::Sender::send`: the value is queued, or handed
/// back inside the error when the receiver is gone.
#[verifier::external_body]
fn output_send<T>(tx: &std::sync::mpsc::Sender<T>, t: T) -> (r: Result<(), ClosedError<T>>)
    ensures
        r matches Err(e) ==> e.0 == t,
{
    match tx.send(t) {
        Ok(()) => Ok(()),
        Err(std::sync::mpsc::SendError(v)) => Err(ClosedError(v)),
    }
}

/// Relies on `std::sync::mpsc::Sender::clone`: another producer handle on
/// the same channel.
#[verifier::external_body]
fn output_sender_clone<T>(tx: &std::sync::mpsc::Sender<T>) -> std::sync::mpsc::Sender<T> {
    tx.clone()
}

/// Relies on `std::sync::mpsc::Receiver::recv`: blocks until a value
/// arrives, and fails only once every sender is gone and the channel is
/// drained.
#[verifier::external_body]
fn output_recv<T>(rx: &std::sync::mpsc::Receiver<T>) -> (r: Result<T, RecvError>)
    ensures
        r matches Err(e) ==> e is Disconnected,
{
    match rx.recv() {
        Ok(t) => Ok(t),
        Err(std::sync::mpsc::RecvError) => Err(RecvError::Disconnected),
    }
}

/// Relies on `std::sync::mpsc::Receiver::try_recv`: never blocks; it fails
/// when the channel holds nothing right now, or for good once every sender
/// is gone and the channel is drained.
#[verifier::external_body]
fn output_try_recv<T>(rx: &std::sync::mpsc::Receiver<T>) -> (r: Result<T, RecvError>)
    ensures
        r matches Err(e) ==> e is Empty || e is Disconnected,
{
    match rx.try_recv() {
        Ok(t) => Ok(t),
        Err(std::sync::mpsc::TryRecvError::Empty) => Err(RecvError::Empty),
        Err(std::sync::mpsc::TryRecvError::Disconnected) => Err(RecvError::Disconnected),
    }
}

/// Relies on `std::sync::mpsc::Receiver::recv_timeout`: blocks up to the
/// bound; it fails on the timeout, or for good once every sender is gone and
/// the channel is drained.
#[verifier::external_body]
fn output_recv_timeout<T>(rx: &std::sync::mpsc::Receiver<T>, timeout: std::time::Duration) -> (r:
    Result<T, RecvError>)
    ensures
        r matches Err(e) ==> e is Timeout || e is Disconnected,
{
    match rx.recv_timeout(timeout) {
        Ok(t) => Ok(t),
        Err(std::sync::mpsc::RecvTimeoutError::Timeout) => Err(RecvError::Timeout),
        Err(std::sync::mpsc::RecvTimeoutError::Disconnected) => Err(RecvError::Disconnected),
    }
}

/// Relies on `std::sync::mpsc::Receiver::iter`: a blocking iterator over the
/// values still to arrive, finite once every sender is gone.
#[verifier::external_body]
fn output_iter<'a, T>(rx: &'a std::sync::mpsc::Receiver<T>) -> std::sync::mpsc::Iter<'a, T> {
    rx.iter()
}

/// Relies on `threadpool::ThreadPool::new`: a pool of exactly `n_workers`
/// worker threads; it panics only on a zero count, which is excluded here.
#[verifier::external_body]
fn pool_new(n_workers: usize) -> threadpool::ThreadPool
    requires
        n_workers >= 1,
{
    threadpool::ThreadPool::new(n_workers)
}

/// Relies on `threadpool::ThreadPool::execute`: starts one job on the pool.
/// The closure only calls the verified worker loop on the two channel
/// handles it is given.
#[verifier::external_body]
fn pool_execute<TaskType: 'static + Task + Send>(
    pool: &threadpool::ThreadPool,
    recv_tasks: spmc::Receiver<TaskType>,
    send_output: std::sync::mpsc::Sender<TaskType::Output>,
) {
    pool.execute(move || WorkQueue::run(recv_tasks, send_output));
}

/// Relies on `threadpool::ThreadPool::join`: blocks until no job of the pool
/// is queued or running, and does not panic.
#[verifier::external_body]
fn pool_join(pool: &threadpool::ThreadPool)
    opens_invariants none
    no_unwind
{
    pool.join();
}

/// A fixed pool of worker threads behind one task channel and one result
/// channel. The producer side of the task channel is owned here and emptied
/// exactly once, on shutdown, so that no further task can be submitted and
/// every worker sees the close.
#[verifier::reject_recursive_types(TaskType)]
pub struct WorkQueue<TaskType: 'static + Task + Send> {
    send_tasks: Option<spmc::Sender<TaskType>>,
    recv_tasks: spmc::Receiver<TaskType>,
    recv_output: std::sync::mpsc::Receiver<TaskType::Output>,
    pool: Option<threadpool::ThreadPool>,
    pool_size: Ghost<nat>,
}

impl<TaskType: 'static + Task + Send> WorkQueue<TaskType> {
    /// Whether tasks can still be submitted: shutdown empties the producer
    /// handle exactly once, and nothing refills it.
    pub closed spec fn is_open(&self) -> bool {
        self.send_tasks is Some
    }

    /// How many worker threads the queue owns: the pool size while it holds
    /// the pool, and zero once shutdown has released it.
    pub closed spec fn worker_count(&self) -> nat {
        if self.pool is Some {
            self.pool_size@
        } else {
            0
        }
    }

    /// From construction until shutdown the queue holds its worker pool;
    /// once it is closed to submissions it owns no workers at all.
    pub open spec fn wf(&self) -> bool {
        !self.is_open() ==> self.worker_count() == 0
    }

    /// Builds the two channels and starts exactly `n_workers` workers, each
    /// looping: take a task, run it, forward its output if it yielded one;
    /// exit once the task channel reports closed and drained.
    pub fn new(n_workers: usize) -> (q: WorkQueue<TaskType>)
        requires
            n_workers >= 1,
        ensures
            q.wf(),
            q.is_open(),
            q.worker_count() == n_workers,
    {
        let (send_tasks, recv_tasks) = task_channel::<TaskType>();
        let (send_output, recv_output) = output_channel::<TaskType::Output>();
        let pool = pool_new(n_workers);
        let mut i: usize = 0;
        while i < n_workers
            invariant
                i <= n_workers,
            decreases n_workers - i,
        {
            let worker_recv_tasks = task_receiver_clone(&recv_tasks);
            let worker_send_output = output_sender_clone(&send_output);
            pool_execute(&pool, worker_recv_tasks, worker_send_output);
            i = i + 1;
        }
        WorkQueue {
            send_tasks: Some(send_tasks),
            recv_tasks,
            recv_output,
            pool: Some(pool),
            pool_size: Ghost(n_workers as nat),
        }
    }

    /// One worker's loop. A receive error is the normal termination signal:
    /// the producer handle was destroyed and the channel is drained. An
    /// output whose receiver is gone is discarded. The explicit step bound
    /// only gives the loop a termination measure; no queue hands a worker
    /// that many tasks.
    fn run(
        recv_tasks: spmc::Receiver<TaskType>,
        send_output: std::sync::mpsc::Sender<TaskType::Output>,
    ) {
        let mut steps: u64 = 0;
        while steps < u64::MAX
            decreases u64::MAX - steps,
        {
            match task_recv(&recv_tasks) {
                Ok(task) => {
                    if let Some(result) = task.run() {
                        let _ = output_send(&send_output, result);
                    }
                },
                Err(_) => {
                    break ;
                },
            }
            steps = steps + 1;
        }
    }

    /// Submits one task for execution by whichever worker becomes available
    /// first. Once shutdown has begun this always fails, handing the task
    /// back; it never silently succeeds.
    pub fn enqueue(&mut self, t: TaskType) -> (r: Result<(), ClosedError<TaskType>>)
        requires
            old(self).wf(),
        ensures
            final(self).wf(),
            final(self).is_open() == old(self).is_open(),
            final(self).worker_count() == old(self).worker_count(),
            !old(self).is_open() ==> r is Err,
            r matches Err(e) ==> e.0 == t,
    {
        match &mut self.send_tasks {
            Some(tx) => task_send(tx, t),
            None => Err(ClosedError(t)),
        }
    }

    /// A blocking iterator over the results still to arrive; it ends once
    /// the queue is shut down and drained.
    pub fn iter(&mut self) -> std::sync::mpsc::Iter<'_, TaskType::Output> {
        output_iter(&self.recv_output)
    }

    /// Blocks until one result is available. It fails only once the queue
    /// has been shut down and fully drained. Receiving past that point is
    /// caller misuse; this library surfaces it as the `Disconnected` error
    /// rather than aborting the process, since its verified functions never
    /// panic, and the caller must stop receiving on seeing it.
    pub fn recv(&mut self) -> (r: Result<TaskType::Output, RecvError>)
        requires
            old(self).wf(),
        ensures
            *final(self) == *old(self),
            r matches Err(e) ==> e is Disconnected,
    {
        output_recv(&self.recv_output)
    }

    /// Returns immediately with a result or with `RecvError::Empty`.
    pub fn try_recv(&mut self) -> (r: Result<TaskType::Output, RecvError>)
        requires
            old(self).wf(),
        ensures
            *final(self) == *old(self),
            r matches Err(e) ==> e is Empty || e is Disconnected,
    {
        output_try_recv(&self.recv_output)
    }

    /// Blocks up to the bound, then reports the timeout as a recoverable
    /// outcome.
    pub fn recv_timeout(&self, timeout: std::time::Duration) -> (r: Result<
        TaskType::Output,
        RecvError,
    >)
        ensures
            r matches Err(e) ==> e is Timeout || e is Disconnected,
    {
        output_recv_timeout(&self.recv_output, timeout)
    }

    /// Destroys the producer side of the task channel, so no further task
    /// can be submitted, discards the tasks still waiting in the channel
    /// without running them, waits for every worker loop to finish its
    /// current task and exit, then releases the pool. Calling it again on a
    /// queue that is already shut down is a no-op. The explicit drain bound
    /// only gives the loop a termination measure; no queue holds that many
    /// waiting tasks.
    pub fn shutdown(&mut self)
        requires
            old(self).wf(),
        ensures
            final(self).wf(),
            !final(self).is_open(),
            final(self).worker_count() == 0,
        opens_invariants none
        no_unwind
    {
        self.send_tasks = None;
        let mut drained: u64 = 0;
        while drained < u64::MAX
            invariant
                self.send_tasks is None,
            decreases u64::MAX - drained,
        {
            match task_try_recv(&self.recv_tasks) {
                Ok(_) => {
                },
                Err(_) => {
                    break ;
                },
            }
            drained = drained + 1;
        }
        match &self.pool {
            Some(pool) => {
                pool_join(pool);
            },
            None => {
            },
        }
        self.pool = None;
    }
}

impl<TaskType: 'static + Task + Send> Drop for WorkQueue<TaskType> {
    /// A queue discarded while still open shuts itself down, so no worker
    /// is left behind however the queue's lifetime ends.
    fn drop(&mut self)
        opens_invariants none
        no_unwind
    {
        match self.send_tasks {
            Some(_) => self.shutdown(),
            None => {
            },
        }
    }
}

} // verus!
