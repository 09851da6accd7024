use vstd::prelude::*;
use std::collections::VecDeque;
use crate::message::{Message, PoolError};

verus! {

/// What a submission did with the job it was handed.
pub enum Submitted<J> {
    /// A waiting worker has the job: it was handed over directly.
    Handed,
    /// The job is in the buffer and will reach a worker.
    Queued,
    /// Fixed mode, no waiting worker and no buffer room: the job comes back,
    /// and the caller waits and offers it again.
    Full(J),
    /// Elastic mode, no waiting worker and no buffer room: one worker with
    /// this id joins the pool; the job itself is dropped.
    Grew(usize),
    /// Elastic mode, no waiting worker, no buffer room and the pool at its
    /// maximum: the job is dropped and the caller is told so.
    AtCapacity,
    /// Shutdown has begun or the queue is closed: the job comes back.
    Stopped(J),
}

/// What a worker is to do after looking at the queue.
pub enum Taken<J> {
    /// Run this job, then look again.
    Run(J),
    /// Stop: the pool is shutting down.
    Terminate,
    /// Nothing is pending: wait for the next item.
    Empty,
    /// Nothing is pending and no producer is left: stop abnormally.
    Closed,
}

/// What one step of shutdown did.
pub enum ShutdownStep {
    /// One more stop signal went out.
    Sent,
    /// No worker was waiting and the buffer had no room: wait, then step again.
    Full,
    /// Every live worker has its stop signal.
    Done,
}

/// The shared state of a pool: its buffer of control messages, the items
/// handed straight to waiting workers, its worker count, and how far
/// shutdown has gone.
pub struct PoolState<J> {
    queue: VecDeque<Message<J>>,
    handed: VecDeque<Message<J>>,
    capacity: usize,
    waiting: usize,
    size: usize,
    workers: usize,
    lost: usize,
    max_workers: Option<usize>,
    stopping: bool,
    terminates_sent: usize,
    closed: bool,
    accepted: Ghost<Seq<Message<J>>>,
    picked: Ghost<Seq<Message<J>>>,
    n_work: Ghost<nat>,
}

impl<J> PoolState<J> {
    /// Every message the pool has taken in, in order.
    pub closed spec fn accepted(&self) -> Seq<Message<J>> {
        self.accepted@
    }

    /// Every message a worker has picked up, in order.
    pub closed spec fn taken(&self) -> Seq<Message<J>> {
        self.picked@
    }

    /// Messages handed straight to a waiting worker and not yet picked up.
    pub closed spec fn handed(&self) -> Seq<Message<J>> {
        self.handed@
    }

    /// Every message that has left the buffer for a worker, in order.
    pub open spec fn delivered(&self) -> Seq<Message<J>> {
        self.taken() + self.handed()
    }

    /// The messages waiting in the buffer, front first.
    pub closed spec fn queued(&self) -> Seq<Message<J>> {
        self.queue@
    }

    /// Buffer capacity (0: hand-off only).
    pub closed spec fn capacity(&self) -> nat {
        self.capacity as nat
    }

    /// Workers registered as waiting and not yet handed an item.
    pub closed spec fn waiting(&self) -> nat {
        self.waiting as nat
    }

    /// The worker count the pool was created with.
    pub closed spec fn initial_size(&self) -> nat {
        self.size as nat
    }

    /// Workers created so far (ids `0..worker_count`).
    pub closed spec fn worker_count(&self) -> nat {
        self.workers as nat
    }

    /// Workers recorded as lost to a failing job.
    pub closed spec fn lost(&self) -> nat {
        self.lost as nat
    }

    /// The growth limit; `None` in fixed mode.
    pub closed spec fn max_workers(&self) -> Option<usize> {
        self.max_workers
    }

    /// Shutdown has begun.
    pub closed spec fn is_stopping(&self) -> bool {
        self.stopping
    }

    /// The producer side is gone.
    pub closed spec fn is_closed(&self) -> bool {
        self.closed
    }

    /// Stop signals sent so far.
    pub closed spec fn terminates_sent(&self) -> nat {
        self.terminates_sent as nat
    }

    /// Stop signals still owed: one per live worker not yet signalled.
    pub open spec fn terminates_left(&self) -> int {
        self.worker_count() - self.lost() - self.terminates_sent()
    }

    /// An item can go out now: a worker waits for it, or the buffer has room.
    pub open spec fn can_accept(&self) -> bool {
        self.waiting() > 0 || self.queued().len() < self.capacity()
    }

    /// The pool's invariant.
    pub closed spec fn wf(&self) -> bool {
        &&& 1 <= self.size <= self.workers
        &&& match self.max_workers {
            Some(m) => self.workers <= m,
            None => self.workers == self.size,
        }
        &&& self.terminates_sent + self.lost <= self.workers
        &&& !self.stopping ==> self.terminates_sent == 0
        &&& self.queue@.len() <= self.capacity
        &&& self.waiting > 0 ==> self.queue@.len() == 0
        &&& self.accepted@ == self.picked@ + self.handed@ + self.queue@
        &&& self.accepted@.len() == self.n_work@ + self.terminates_sent
        &&& forall|i: int| 0 <= i < self.n_work@ ==> (#[trigger] self.accepted@[i]) is Work
        &&& forall|i: int|
            self.n_work@ <= i < self.accepted@.len() ==> (#[trigger] self.accepted@[i]) is Terminate
    }

    /// Builds the state of a pool of `size` workers whose buffer holds
    /// `capacity` items; with `max_workers` the pool may grow up to it.
    pub fn new(size: usize, capacity: usize, max_workers: Option<usize>) -> (r: Result<
        PoolState<J>,
        PoolError,
    >)
        ensures
            size == 0 ==> r == Err::<PoolState<J>, PoolError>(PoolError::ZeroSize),
            size > 0 && (max_workers matches Some(m) && m < size) ==> r == Err::<
                PoolState<J>,
                PoolError,
            >(PoolError::SizeAboveMax),
            size > 0 && !(max_workers matches Some(m) && m < size) ==> r is Ok,
            r matches Ok(p) ==> {
                &&& p.wf()
                &&& p.initial_size() == size
                &&& p.worker_count() == size
                &&& p.capacity() == capacity
                &&& p.max_workers() == max_workers
                &&& p.waiting() == 0
                &&& p.lost() == 0
                &&& !p.is_stopping()
                &&& !p.is_closed()
                &&& p.terminates_sent() == 0
                &&& p.terminates_left() == size
                &&& p.accepted() == Seq::<Message<J>>::empty()
                &&& p.taken() == Seq::<Message<J>>::empty()
                &&& p.handed() == Seq::<Message<J>>::empty()
                &&& p.queued() == Seq::<Message<J>>::empty()
            },
    {
        if size == 0 {
            return Err(PoolError::ZeroSize);
        }
        if let Some(m) = max_workers {
            if m < size {
                return Err(PoolError::SizeAboveMax);
            }
        }
        Ok(PoolState {
            queue: VecDeque::new(),
            handed: VecDeque::new(),
            capacity,
            waiting: 0,
            size,
            workers: size,
            lost: 0,
            max_workers,
            stopping: false,
            terminates_sent: 0,
            closed: false,
            accepted: Ghost(Seq::empty()),
            picked: Ghost(Seq::empty()),
            n_work: Ghost(0),
        })
    }
    /// What no step changes: the buffer size, the initial size and the
    /// growth limit.
    pub open spec fn same_settings(&self, other: &PoolState<J>) -> bool {
        &&& other.capacity() == self.capacity()
        &&& other.initial_size() == self.initial_size()
        &&& other.max_workers() == self.max_workers()
    }

    /// Whether an item can go out now.
    pub fn accepting(&self) -> (r: bool)
        ensures
            r == self.can_accept(),
    {
        self.waiting > 0 || self.queue.len() < self.capacity
    }

    /// Offers a job to the pool.
    ///
    /// A waiting worker gets the job at once. Otherwise the job goes into the
    /// buffer if it has room. Otherwise a fixed pool hands the job back so the
    /// caller can wait and retry; an elastic pool below its maximum adds one
    /// worker (the next id) and drops the job; an elastic pool at its maximum
    /// drops the job and says so. Once shutdown has begun, or the queue is
    /// closed, nothing is accepted.
    pub fn submit(&mut self, job: J) -> (r: Submitted<J>)
        requires
            old(self).wf(),
        ensures
            final(self).wf(),
            old(self).same_settings(final(self)),
            0 <= final(self).terminates_left() <= final(self).worker_count(),
            final(self).lost() == old(self).lost(),
            final(self).is_stopping() == old(self).is_stopping(),
            final(self).is_closed() == old(self).is_closed(),
            final(self).terminates_sent() == old(self).terminates_sent(),
            final(self).taken() == old(self).taken(),
            old(self).is_stopping() || old(self).is_closed() ==> {
                &&& r == Submitted::Stopped(job)
                &&& *final(self) == *old(self)
            },
            !old(self).is_stopping() && !old(self).is_closed() && old(self).waiting() > 0 ==> {
                &&& r is Handed
                &&& final(self).accepted() == old(self).accepted().push(Message::Work(job))
                &&& final(self).handed() == old(self).handed().push(Message::Work(job))
                &&& final(self).delivered() == old(self).delivered().push(Message::Work(job))
                &&& final(self).queued() == old(self).queued()
                &&& final(self).waiting() == old(self).waiting() - 1
                &&& final(self).worker_count() == old(self).worker_count()
            },
            !old(self).is_stopping() && !old(self).is_closed() && old(self).waiting() == 0
                && old(self).queued().len() < old(self).capacity() ==> {
                &&& r is Queued
                &&& final(self).accepted() == old(self).accepted().push(Message::Work(job))
                &&& final(self).queued() == old(self).queued().push(Message::Work(job))
                &&& final(self).handed() == old(self).handed()
                &&& final(self).waiting() == old(self).waiting()
                &&& final(self).worker_count() == old(self).worker_count()
            },
            !old(self).is_stopping() && !old(self).is_closed() && !old(self).can_accept() ==> {
                &&& final(self).accepted() == old(self).accepted()
                &&& final(self).queued() == old(self).queued()
                &&& final(self).handed() == old(self).handed()
                &&& final(self).waiting() == old(self).waiting()
                &&& match old(self).max_workers() {
                    None => r == Submitted::Full(job) && *final(self) == *old(self),
                    Some(m) => if old(self).worker_count() < m {
                        &&& r == Submitted::<J>::Grew(old(self).worker_count() as usize)
                        &&& final(self).worker_count() == old(self).worker_count() + 1
                    } else {
                        r is AtCapacity && *final(self) == *old(self)
                    },
                }
            },
    {
        if self.stopping || self.closed {
            return Submitted::Stopped(job);
        }
        if self.waiting > 0 {
            let ghost msg = Message::Work(job);
            self.handed.push_back(Message::Work(job));
            self.waiting = self.waiting - 1;
            proof {
                self.accepted@ = self.accepted@.push(msg);
                self.n_work@ = self.n_work@ + 1;
                assert(self.accepted@ =~= self.picked@ + self.handed@ + self.queue@);
            }
            return Submitted::Handed;
        }
        if self.queue.len() < self.capacity {
            let ghost msg = Message::Work(job);
            self.queue.push_back(Message::Work(job));
            proof {
                self.accepted@ = self.accepted@.push(msg);
                self.n_work@ = self.n_work@ + 1;
                assert(self.accepted@ =~= self.picked@ + self.handed@ + self.queue@);
            }
            return Submitted::Queued;
        }
        match self.max_workers {
            None => Submitted::Full(job),
            Some(m) => {
                if self.workers < m {
                    let id = self.workers;
                    self.workers = self.workers + 1;
                    Submitted::Grew(id)
                } else {
                    Submitted::AtCapacity
                }
            },
        }
    }

    /// A worker looks for its next item: first one handed over to a waiting
    /// worker, else the front of the buffer. Each item reaches one worker.
    pub fn take(&mut self) -> (r: Taken<J>)
        requires
            old(self).wf(),
        ensures
            final(self).wf(),
            old(self).same_settings(final(self)),
            0 <= final(self).terminates_left() <= final(self).worker_count(),
            final(self).accepted() == old(self).accepted(),
            final(self).worker_count() == old(self).worker_count(),
            final(self).lost() == old(self).lost(),
            final(self).waiting() == old(self).waiting(),
            final(self).is_stopping() == old(self).is_stopping(),
            final(self).is_closed() == old(self).is_closed(),
            final(self).terminates_sent() == old(self).terminates_sent(),
            old(self).handed().len() > 0 ==> {
                &&& final(self).taken() == old(self).taken().push(old(self).handed()[0])
                &&& final(self).handed() == old(self).handed().drop_first()
                &&& final(self).queued() == old(self).queued()
                &&& match old(self).handed()[0] {
                    Message::Work(job) => r == Taken::Run(job),
                    Message::Terminate => r is Terminate,
                }
            },
            old(self).handed().len() == 0 && old(self).queued().len() > 0 ==> {
                &&& final(self).taken() == old(self).taken().push(old(self).queued()[0])
                &&& final(self).queued() == old(self).queued().drop_first()
                &&& final(self).handed() == old(self).handed()
                &&& match old(self).queued()[0] {
                    Message::Work(job) => r == Taken::Run(job),
                    Message::Terminate => r is Terminate,
                }
            },
            old(self).handed().len() == 0 && old(self).queued().len() == 0 ==> {
                &&& *final(self) == *old(self)
                &&& if old(self).is_closed() { r is Closed } else { r is Empty }
            },
    {
        let msg;
        if self.handed.len() > 0 {
            let ghost before = self.handed@;
            match self.handed.pop_front() {
                Some(m) => {
                    proof {
                        self.picked@ = self.picked@.push(m);
                        assert(before =~= seq![m] + self.handed@);
                        assert(self.accepted@ =~= self.picked@ + self.handed@ + self.queue@);
                    }
                    msg = m;
                },
                None => return Taken::Empty,
            }
        } else if self.queue.len() > 0 {
            let ghost before = self.queue@;
            match self.queue.pop_front() {
                Some(m) => {
                    proof {
                        self.picked@ = self.picked@.push(m);
                        assert(before =~= seq![m] + self.queue@);
                        assert(self.accepted@ =~= self.picked@ + self.handed@ + self.queue@);
                    }
                    msg = m;
                },
                None => return Taken::Empty,
            }
        } else {
            return if self.closed {
                Taken::Closed
            } else {
                Taken::Empty
            };
        }
        match msg {
            Message::Work(job) => Taken::Run(job),
            Message::Terminate => Taken::Terminate,
        }
    }
    /// A worker that found nothing pending registers as waiting; the next
    /// item that goes out is handed to a waiting worker. A worker registers
    /// only while nothing is pending for it.
    pub fn begin_wait(&mut self)
        requires
            old(self).wf(),
        ensures
            final(self).wf(),
            final(self).waiting() == if old(self).queued().len() == 0 && old(self).handed().len()
                == 0 && old(self).waiting() < usize::MAX {
                old(self).waiting() + 1
            } else {
                old(self).waiting()
            },
            old(self).same_settings(final(self)),
            final(self).accepted() == old(self).accepted(),
            final(self).taken() == old(self).taken(),
            final(self).handed() == old(self).handed(),
            final(self).queued() == old(self).queued(),
            final(self).worker_count() == old(self).worker_count(),
            final(self).lost() == old(self).lost(),
            final(self).is_stopping() == old(self).is_stopping(),
            final(self).is_closed() == old(self).is_closed(),
            final(self).terminates_sent() == old(self).terminates_sent(),
    {
        if self.queue.len() == 0 && self.handed.len() == 0 && self.waiting < usize::MAX {
            self.waiting = self.waiting + 1;
        }
    }

    /// A worker woke up and withdraws one registration, if any is left.
    pub fn end_wait(&mut self)
        requires
            old(self).wf(),
        ensures
            final(self).wf(),
            final(self).waiting() == if old(self).waiting() > 0 {
                old(self).waiting() - 1
            } else {
                0
            },
            old(self).same_settings(final(self)),
            final(self).accepted() == old(self).accepted(),
            final(self).taken() == old(self).taken(),
            final(self).handed() == old(self).handed(),
            final(self).queued() == old(self).queued(),
            final(self).worker_count() == old(self).worker_count(),
            final(self).lost() == old(self).lost(),
            final(self).is_stopping() == old(self).is_stopping(),
            final(self).is_closed() == old(self).is_closed(),
            final(self).terminates_sent() == old(self).terminates_sent(),
    {
        if self.waiting > 0 {
            self.waiting = self.waiting - 1;
        }
    }

    /// A worker died while running a job: it will never take a stop signal,
    /// so one fewer is owed (when any is still owed).
    pub fn worker_lost(&mut self)
        requires
            old(self).wf(),
        ensures
            final(self).wf(),
            final(self).lost() == if old(self).terminates_left() > 0 {
                old(self).lost() + 1
            } else {
                old(self).lost()
            },
            0 <= final(self).terminates_left() <= final(self).worker_count(),
            old(self).same_settings(final(self)),
            final(self).accepted() == old(self).accepted(),
            final(self).taken() == old(self).taken(),
            final(self).handed() == old(self).handed(),
            final(self).queued() == old(self).queued(),
            final(self).waiting() == old(self).waiting(),
            final(self).worker_count() == old(self).worker_count(),
            final(self).is_stopping() == old(self).is_stopping(),
            final(self).is_closed() == old(self).is_closed(),
            final(self).terminates_sent() == old(self).terminates_sent(),
    {
        if self.terminates_sent + self.lost < self.workers {
            self.lost = self.lost + 1;
        }
    }

    /// One step of shutdown. Every step stops further submissions; each
    /// sends one stop signal (to a waiting worker, else into the buffer) when
    /// it can, until every live worker has one. After that a step changes
    /// nothing.
    pub fn shutdown_step(&mut self) -> (r: ShutdownStep)
        requires
            old(self).wf(),
        ensures
            final(self).wf(),
            final(self).is_stopping(),
            0 <= final(self).terminates_left() <= final(self).worker_count(),
            old(self).same_settings(final(self)),
            final(self).taken() == old(self).taken(),
            final(self).worker_count() == old(self).worker_count(),
            final(self).lost() == old(self).lost(),
            final(self).is_closed() == old(self).is_closed(),
            old(self).terminates_left() == 0 ==> {
                &&& r is Done
                &&& final(self).accepted() == old(self).accepted()
                &&& final(self).handed() == old(self).handed()
                &&& final(self).queued() == old(self).queued()
                &&& final(self).waiting() == old(self).waiting()
                &&& final(self).terminates_sent() == old(self).terminates_sent()
                &&& old(self).is_stopping() ==> *final(self) == *old(self)
            },
            old(self).terminates_left() > 0 && old(self).waiting() > 0 ==> {
                &&& r is Sent
                &&& final(self).accepted() == old(self).accepted().push(Message::Terminate)
                &&& final(self).handed() == old(self).handed().push(Message::Terminate)
                &&& final(self).queued() == old(self).queued()
                &&& final(self).waiting() == old(self).waiting() - 1
                &&& final(self).terminates_sent() == old(self).terminates_sent() + 1
            },
            old(self).terminates_left() > 0 && old(self).waiting() == 0 && old(self).queued().len()
                < old(self).capacity() ==> {
                &&& r is Sent
                &&& final(self).accepted() == old(self).accepted().push(Message::Terminate)
                &&& final(self).queued() == old(self).queued().push(Message::Terminate)
                &&& final(self).handed() == old(self).handed()
                &&& final(self).waiting() == old(self).waiting()
                &&& final(self).terminates_sent() == old(self).terminates_sent() + 1
            },
            old(self).terminates_left() > 0 && !old(self).can_accept() ==> {
                &&& r is Full
                &&& final(self).accepted() == old(self).accepted()
                &&& final(self).queued() == old(self).queued()
                &&& final(self).handed() == old(self).handed()
                &&& final(self).waiting() == old(self).waiting()
                &&& final(self).terminates_sent() == old(self).terminates_sent()
            },
    {
        self.stopping = true;
        if self.terminates_sent + self.lost == self.workers {
            return ShutdownStep::Done;
        }
        if self.waiting > 0 {
            self.handed.push_back(Message::Terminate);
            self.waiting = self.waiting - 1;
        } else if self.queue.len() < self.capacity {
            self.queue.push_back(Message::Terminate);
        } else {
            return ShutdownStep::Full;
        }
        proof {
            self.accepted@ = self.accepted@.push(Message::Terminate);
            assert(self.accepted@ =~= self.picked@ + self.handed@ + self.queue@);
        }
        self.terminates_sent = self.terminates_sent + 1;
        ShutdownStep::Sent
    }

    /// The producer side is gone: workers that find nothing pending stop.
    pub fn close(&mut self)
        requires
            old(self).wf(),
        ensures
            final(self).wf(),
            final(self).is_closed(),
            old(self).same_settings(final(self)),
            final(self).accepted() == old(self).accepted(),
            final(self).taken() == old(self).taken(),
            final(self).handed() == old(self).handed(),
            final(self).queued() == old(self).queued(),
            final(self).waiting() == old(self).waiting(),
            final(self).worker_count() == old(self).worker_count(),
            final(self).lost() == old(self).lost(),
            final(self).is_stopping() == old(self).is_stopping(),
            final(self).terminates_sent() == old(self).terminates_sent(),
    {
        self.closed = true;
    }

    /// Workers created so far.
    pub fn workers(&self) -> (r: usize)
        ensures
            r == self.worker_count(),
    {
        self.workers
    }

    /// Items waiting in the buffer.
    pub fn queue_len(&self) -> (r: usize)
        ensures
            r == self.queued().len(),
    {
        self.queue.len()
    }

    /// Items handed to waiting workers and not yet picked up.
    pub fn handed_len(&self) -> (r: usize)
        ensures
            r == self.handed().len(),
    {
        self.handed.len()
    }

    /// Whether shutdown has begun.
    pub fn stopping(&self) -> (r: bool)
        ensures
            r == self.is_stopping(),
    {
        self.stopping
    }
}

/// How many stop signals a sequence of messages holds.
pub open spec fn count_terminates<J>(s: Seq<Message<J>>) -> nat
    decreases s.len(),
{
    if s.len() == 0 {
        0
    } else {
        count_terminates(s.drop_last()) + if s.last() is Terminate {
            1nat
        } else {
            0nat
        }
    }
}

/// In a sequence of `k` work items followed only by stop signals, the first
/// `n` messages hold `n - k` stop signals (none when `n <= k`).
proof fn lemma_count_prefix<J>(s: Seq<Message<J>>, k: nat, n: nat)
    requires
        k <= s.len(),
        n <= s.len(),
        forall|i: int| 0 <= i < k ==> (#[trigger] s[i]) is Work,
        forall|i: int| k <= i < s.len() ==> (#[trigger] s[i]) is Terminate,
    ensures
        count_terminates(s.take(n as int)) == if n <= k {
            0
        } else {
            (n - k) as nat
        },
    decreases n,
{
    if n > 0 {
        lemma_count_prefix(s, k, (n - 1) as nat);
        assert(s.take(n as int).drop_last() =~= s.take(n - 1));
    }
}

/// Messages reach workers in the order the pool accepted them: what workers
/// picked up is the front of what was handed out, what was handed out is the
/// front of what was accepted, and the buffer holds the rest, in order.
pub proof fn lemma_delivery_in_acceptance_order<J>(p: &PoolState<J>)
    requires
        p.wf(),
    ensures
        p.delivered().len() + p.queued().len() == p.accepted().len(),
        forall|i: int| 0 <= i < p.taken().len() ==> #[trigger] p.taken()[i] == p.accepted()[i],
        forall|i: int| 0 <= i < p.delivered().len() ==> #[trigger] p.delivered()[i] == p.accepted()[i],
        forall|i: int|
            0 <= i < p.queued().len() ==> #[trigger] p.queued()[i] == p.accepted()[p.delivered().len() + i],
{
    assert(p.accepted() =~= p.delivered() + p.queued());
    assert forall|i: int| 0 <= i < p.taken().len() implies #[trigger] p.taken()[i] == p.accepted()[i] by {
        assert(p.delivered()[i] == p.taken()[i]);
    }
    assert forall|i: int| 0 <= i < p.queued().len() implies #[trigger] p.queued()[i] == p.accepted()[p.delivered().len() + i] by {
        assert(p.accepted() == p.delivered() + p.queued());
    }
}

/// Every accepted message goes to exactly one worker, once: it has been
/// picked up, or handed to a waiting worker, or is still in the buffer, in
/// exactly one of these places; once nothing is pending, every accepted
/// message has been picked up.
pub proof fn lemma_each_accepted_delivered_once<J>(p: &PoolState<J>)
    requires
        p.wf(),
    ensures
        p.accepted() == p.taken() + p.handed() + p.queued(),
        p.accepted().len() == p.taken().len() + p.handed().len() + p.queued().len(),
        p.handed().len() == 0 && p.queued().len() == 0 ==> p.taken() == p.accepted(),
{
    if p.handed().len() == 0 && p.queued().len() == 0 {
        assert(p.taken() + p.handed() + p.queued() =~= p.taken());
    }
}

/// The buffer never holds more than its capacity, and holds nothing while a
/// worker waits; with capacity 0 every accepted message has gone straight
/// to a worker.
pub proof fn lemma_buffer_within_capacity<J>(p: &PoolState<J>)
    requires
        p.wf(),
    ensures
        p.queued().len() <= p.capacity(),
        p.waiting() > 0 ==> p.queued().len() == 0,
        p.capacity() == 0 ==> p.delivered() == p.accepted(),
{
    if p.capacity() == 0 {
        assert(p.accepted() =~= p.delivered() + p.queued());
        assert(p.delivered() + p.queued() =~= p.delivered());
    }
}

/// No work is accepted after a stop signal: every message accepted after a
/// stop signal is a stop signal too.
pub proof fn lemma_no_work_after_stop<J>(p: &PoolState<J>)
    requires
        p.wf(),
    ensures
        forall|i: int, j: int|
            0 <= i < j < p.accepted().len() && (#[trigger] p.accepted()[i]) is Terminate
                ==> (#[trigger] p.accepted()[j]) is Terminate,
{
}

/// Once shutdown has sent its stop signals and workers have picked up as
/// many stop signals as were sent, every message accepted before shutdown
/// has been picked up by a worker: nothing is left pending.
pub proof fn lemma_shutdown_leaves_no_work<J>(p: &PoolState<J>)
    requires
        p.wf(),
        p.terminates_sent() > 0,
        count_terminates(p.taken()) >= p.terminates_sent(),
    ensures
        p.queued().len() == 0,
        p.handed().len() == 0,
        p.taken() == p.accepted(),
{
    let s = p.accepted@;
    let k = p.n_work@;
    let d = p.picked@.len();
    assert(p.picked@ =~= s.take(d as int)) by {
        assert(s == p.picked@ + p.handed@ + p.queue@);
    }
    lemma_count_prefix(s, k, d);
    lemma_each_accepted_delivered_once(p);
}

/// The worker count starts at the initial size and never leaves its bounds:
/// at least one worker, exactly the initial size in fixed mode, and never
/// more than the maximum in elastic mode; the stop signals owed never
/// exceed the worker count.
pub proof fn lemma_worker_count_bounded<J>(p: &PoolState<J>)
    requires
        p.wf(),
    ensures
        1 <= p.initial_size() <= p.worker_count(),
        p.max_workers() matches Some(m) ==> p.worker_count() <= m,
        p.max_workers() is None ==> p.worker_count() == p.initial_size(),
        0 <= p.terminates_left() <= p.worker_count(),
        !p.is_stopping() ==> p.terminates_sent() == 0,
{
}

} // verus!
