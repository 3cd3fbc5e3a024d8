use std::collections::HashMap;
use std::collections::VecDeque;
use vstd::prelude::*;

verus! {

broadcast use vstd::std_specs::hash::group_hash_axioms;

/// `OS_MESG_BLOCK` (include/PR/os_message.h); any other flag is `OS_MESG_NOBLOCK`.
pub const OS_MESG_BLOCK: i32 = 1;

/// What a send did: it completed with a return code (0 delivered or coalesced, -1 dropped on a
/// full queue), naming the receiver to wake if one was waiting; or the caller must park (a
/// blocking send on a full queue) and retry when woken.
#[derive(Clone, Copy, Debug, PartialEq, Eq)]
pub enum SendStep {
    Done { ret: i32, wake: Option<usize> },
    Park,
}

/// What a receive did: it completed with a return code and message (0 and the head message, or
/// -1 and 0 on an empty queue), naming the sender to wake if one was waiting; or the caller must
/// park (a blocking receive on an empty queue) and retry when woken.
#[derive(Clone, Copy, Debug, PartialEq, Eq)]
pub enum RecvStep {
    Done { ret: i32, msg: usize, wake: Option<usize> },
    Park,
}

impl SendStep {
    /// The return code of a completed send.
    pub fn ret(&self) -> (r: i32)
        requires
            self is Done,
        ensures
            r == self->ret,
    {
        match self {
            SendStep::Done { ret, .. } => *ret,
            SendStep::Park => 0,
        }
    }
}

impl RecvStep {
    /// The return code and message of a completed receive.
    pub fn pair(&self) -> (r: (i32, usize))
        requires
            self is Done,
        ensures
            r == (self->ret, self->msg),
    {
        match self {
            RecvStep::Done { ret, msg, .. } => (*ret, *msg),
            RecvStep::Park => (0, 0),
        }
    }
}

/// A message queue as a value: the pending messages in arrival order, the capacity, and the
/// threads waiting to receive and to send, each in arrival order.
pub struct QueueView {
    pub msgs: Seq<usize>,
    pub cap: nat,
    pub recv_waiters: Seq<usize>,
    pub send_waiters: Seq<usize>,
}

pub open spec fn first_of(s: Seq<usize>) -> Option<usize> {
    if s.len() > 0 {
        Some(s[0])
    } else {
        None
    }
}

pub open spec fn rest_of(s: Seq<usize>) -> Seq<usize> {
    if s.len() > 0 {
        s.drop_first()
    } else {
        s
    }
}

impl QueueView {
    pub open spec fn wf(self) -> bool {
        0 < self.cap && self.msgs.len() <= self.cap
    }

    /// Tail-insert (osSendMesg order) and hand the first waiting receiver its wake.
    pub open spec fn deliver(self, msg: usize) -> QueueView {
        QueueView {
            msgs: self.msgs.push(msg),
            recv_waiters: rest_of(self.recv_waiters),
            ..self
        }
    }

    /// The result of `send`: delivered when there is room; dropped when full and non-blocking;
    /// otherwise the sender joins the send waiters and parks.
    pub open spec fn send(self, msg: usize, flag: i32, me: usize) -> (QueueView, SendStep) {
        if self.msgs.len() < self.cap {
            (self.deliver(msg), SendStep::Done { ret: 0, wake: first_of(self.recv_waiters) })
        } else if flag != OS_MESG_BLOCK {
            (self, SendStep::Done { ret: -1i32, wake: None })
        } else {
            (QueueView { send_waiters: self.send_waiters.push(me), ..self }, SendStep::Park)
        }
    }

    /// The result of `send_coalescing`: a message already pending suppresses the post (reported
    /// as success); otherwise a non-blocking send.
    pub open spec fn send_coalescing(self, msg: usize) -> (QueueView, SendStep) {
        if self.msgs.contains(msg) {
            (self, SendStep::Done { ret: 0, wake: None })
        } else {
            self.send(msg, 0, 0)
        }
    }

    /// The result of `recv`: the head message when there is one (waking the first waiting
    /// sender); -1 when empty and non-blocking; otherwise the receiver joins the receive waiters
    /// and parks.
    pub open spec fn recv(self, flag: i32, me: usize) -> (QueueView, RecvStep) {
        if self.msgs.len() > 0 {
            (
                QueueView {
                    msgs: self.msgs.drop_first(),
                    send_waiters: rest_of(self.send_waiters),
                    ..self
                },
                RecvStep::Done { ret: 0, msg: self.msgs[0], wake: first_of(self.send_waiters) },
            )
        } else if flag != OS_MESG_BLOCK {
            (self, RecvStep::Done { ret: -1i32, msg: 0, wake: None })
        } else {
            (QueueView { recv_waiters: self.recv_waiters.push(me), ..self }, RecvStep::Park)
        }
    }
}

/// Ring position of the `k`-th pending message.
pub open spec fn slot(first: int, k: int, cap: int) -> int {
    if first + k < cap {
        first + k
    } else {
        first + k - cap
    }
}

/// A fixed-capacity ring of messages (OSMesg values) with its blocked receivers and senders.
pub struct Queue {
    buf: Vec<usize>,
    first: usize,
    valid: usize,
    cap: usize,
    recv_waiters: VecDeque<usize>,
    send_waiters: VecDeque<usize>,
}

impl View for Queue {
    type V = QueueView;

    closed spec fn view(&self) -> QueueView {
        QueueView {
            msgs: Seq::new(
                self.valid as nat,
                |k: int| self.buf@[slot(self.first as int, k, self.cap as int)],
            ),
            cap: self.cap as nat,
            recv_waiters: self.recv_waiters@,
            send_waiters: self.send_waiters@,
        }
    }
}

impl Queue {
    pub closed spec fn wf(&self) -> bool {
        &&& 0 < self.cap
        &&& self.buf@.len() == self.cap
        &&& self.first < self.cap
        &&& self.valid <= self.cap
    }

    /// An empty queue of `cap` slots.
    pub fn new(cap: usize) -> (q: Queue)
        requires
            cap > 0,
        ensures
            q.wf(),
            q@.msgs == Seq::<usize>::empty(),
            q@.cap == cap,
            q@.recv_waiters == Seq::<usize>::empty(),
            q@.send_waiters == Seq::<usize>::empty(),
    {
        let mut buf: Vec<usize> = Vec::new();
        let mut i: usize = 0;
        while i < cap
            invariant
                i <= cap,
                buf@.len() == i,
            decreases cap - i,
        {
            buf.push(0);
            i = i + 1;
        }
        let q = Queue {
            buf,
            first: 0,
            valid: 0,
            cap,
            recv_waiters: VecDeque::new(),
            send_waiters: VecDeque::new(),
        };
        assert(q@.msgs =~= Seq::<usize>::empty());
        q
    }

    pub proof fn lemma_wf(&self)
        requires
            self.wf(),
        ensures
            self@.wf(),
    {
    }

    fn push_tail(&mut self, m: usize)
        requires
            old(self).wf(),
            old(self)@.msgs.len() < old(self)@.cap,
        ensures
            final(self).wf(),
            final(self)@ == (QueueView { msgs: old(self)@.msgs.push(m), ..old(self)@ }),
    {
        let i = if self.first < self.cap - self.valid {
            self.first + self.valid
        } else {
            self.first - (self.cap - self.valid)
        };
        self.buf.set(i, m);
        self.valid = self.valid + 1;
        assert(self@.msgs =~= old(self)@.msgs.push(m));
    }

    fn pop_head(&mut self) -> (m: usize)
        requires
            old(self).wf(),
            old(self)@.msgs.len() > 0,
        ensures
            final(self).wf(),
            m == old(self)@.msgs[0],
            final(self)@ == (QueueView { msgs: old(self)@.msgs.drop_first(), ..old(self)@ }),
    {
        let m = self.buf[self.first];
        self.first = if self.first + 1 == self.cap {
            0
        } else {
            self.first + 1
        };
        self.valid = self.valid - 1;
        assert(self@.msgs =~= old(self)@.msgs.drop_first());
        m
    }

    /// Is `m` already pending in the ring?
    pub fn contains(&self, m: usize) -> (r: bool)
        requires
            self.wf(),
        ensures
            r == self@.msgs.contains(m),
    {
        let mut k: usize = 0;
        while k < self.valid
            invariant
                self.wf(),
                k <= self.valid,
                forall|j: int| 0 <= j < k ==> self@.msgs[j] != m,
            decreases self.valid - k,
        {
            let i = if self.first < self.cap - k {
                self.first + k
            } else {
                self.first - (self.cap - k)
            };
            if self.buf[i] == m {
                assert(self@.msgs[k as int] == m);
                return true;
            }
            k = k + 1;
        }
        false
    }

    /// osSendMesg on this queue (see `QueueView::send`).
    pub fn send(&mut self, msg: usize, flag: i32, me: usize) -> (step: SendStep)
        requires
            old(self).wf(),
        ensures
            final(self).wf(),
            (final(self)@, step) == old(self)@.send(msg, flag, me),
    {
        if self.valid < self.cap {
            self.push_tail(msg);
            let wake = self.recv_waiters.pop_front();
            assert(self@.recv_waiters =~= rest_of(old(self)@.recv_waiters));
            SendStep::Done { ret: 0, wake }
        } else if flag != OS_MESG_BLOCK {
            SendStep::Done { ret: -1, wake: None }
        } else {
            self.send_waiters.push_back(me);
            SendStep::Park
        }
    }

    /// The VI retrace post: suppressed while the same message is still pending, so at most one
    /// retrace is ever queued (see `QueueView::send_coalescing`).
    pub fn send_coalescing(&mut self, msg: usize) -> (step: SendStep)
        requires
            old(self).wf(),
        ensures
            final(self).wf(),
            (final(self)@, step) == old(self)@.send_coalescing(msg),
    {
        if self.contains(msg) {
            return SendStep::Done { ret: 0, wake: None };
        }
        self.send(msg, 0, 0)
    }

    /// osRecvMesg on this queue (see `QueueView::recv`).
    pub fn recv(&mut self, flag: i32, me: usize) -> (step: RecvStep)
        requires
            old(self).wf(),
        ensures
            final(self).wf(),
            (final(self)@, step) == old(self)@.recv(flag, me),
            old(self)@.msgs.len() == 0 && flag == OS_MESG_BLOCK ==> step == RecvStep::Park
                && final(self)@.recv_waiters == old(self)@.recv_waiters.push(me),
    {
        if self.valid > 0 {
            let m = self.pop_head();
            let wake = self.send_waiters.pop_front();
            assert(self@.send_waiters =~= rest_of(old(self)@.send_waiters));
            RecvStep::Done { ret: 0, msg: m, wake }
        } else if flag != OS_MESG_BLOCK {
            RecvStep::Done { ret: -1, msg: 0, wake: None }
        } else {
            self.recv_waiters.push_back(me);
            RecvStep::Park
        }
    }

    /// Room for one more message?
    pub fn has_room(&self) -> (r: bool)
        requires
            self.wf(),
        ensures
            r == (self@.msgs.len() < self@.cap),
    {
        self.valid < self.cap
    }
}

/// The queues of the process, keyed by the guest's OSMesgQueue address.
pub struct MesgRegistry {
    queues: HashMap<usize, Queue>,
}

/// The capacity `HLXMesgQueueCreate` gives a queue created with `count` slots (at least one).
pub open spec fn queue_cap(count: i32) -> nat {
    if count < 1 {
        1
    } else {
        count as nat
    }
}

pub open spec fn empty_queue(cap: nat) -> QueueView {
    QueueView {
        msgs: Seq::empty(),
        cap,
        recv_waiters: Seq::empty(),
        send_waiters: Seq::empty(),
    }
}

impl View for MesgRegistry {
    type V = Map<usize, QueueView>;

    closed spec fn view(&self) -> Map<usize, QueueView> {
        self.queues@.map_values(|q: Queue| q@)
    }
}

impl MesgRegistry {
    pub closed spec fn wf(&self) -> bool {
        forall|k: usize| #[trigger] self.queues@.contains_key(k) ==> self.queues@[k].wf()
    }

    pub fn new() -> (r: MesgRegistry)
        ensures
            r.wf(),
            r@ == Map::<usize, QueueView>::empty(),
    {
        let r = MesgRegistry { queues: HashMap::new() };
        assert(r@ =~= Map::<usize, QueueView>::empty());
        r
    }

    /// Every queue of a well-formed registry is within its capacity.
    pub proof fn lemma_wf(&self)
        requires
            self.wf(),
        ensures
            forall|k: usize| #[trigger] self@.contains_key(k) ==> self@[k].wf(),
    {
        assert forall|k: usize| #[trigger] self@.contains_key(k) implies self@[k].wf() by {
            self.queues@[k].lemma_wf();
        }
    }

    /// osCreateMesgQueue: (re)create the queue at `key`, empty, with `count` slots (at least one).
    pub fn create(&mut self, key: usize, count: i32)
        requires
            old(self).wf(),
        ensures
            final(self).wf(),
            final(self)@ == old(self)@.insert(key, empty_queue(queue_cap(count))),
    {
        let cap: usize = if count < 1 {
            1
        } else {
            count as usize
        };
        let q = Queue::new(cap);
        self.queues.insert(key, q);
        assert(self@ =~= old(self)@.insert(key, empty_queue(queue_cap(count))));
    }

    /// Is there a queue at `key`?
    pub fn contains(&self, key: usize) -> (r: bool)
        ensures
            r == self@.contains_key(key),
    {
        self.queues.contains_key(&key)
    }

    fn take(&mut self, key: usize) -> (q: Queue)
        requires
            old(self).wf(),
            old(self)@.contains_key(key),
        ensures
            q.wf(),
            q@ == old(self)@[key],
            final(self).queues@ == old(self).queues@.remove(key),
    {
        match self.queues.remove(&key) {
            Some(q) => q,
            None => {
                assert(false);
                Queue::new(1)
            },
        }
    }

    fn put(&mut self, key: usize, q: Queue)
        requires
            q.wf(),
            forall|k: usize| #[trigger] old(self).queues@.contains_key(k) ==> old(self).queues@[k].wf(),
        ensures
            final(self).wf(),
            final(self).queues@ == old(self).queues@.insert(key, q),
    {
        self.queues.insert(key, q);
    }

    /// osSendMesg to the queue at `key` (see `QueueView::send`).
    pub fn send(&mut self, key: usize, msg: usize, flag: i32, me: usize) -> (step: SendStep)
        requires
            old(self).wf(),
            old(self)@.contains_key(key),
        ensures
            final(self).wf(),
            final(self)@ == old(self)@.insert(key, old(self)@[key].send(msg, flag, me).0),
            step == old(self)@[key].send(msg, flag, me).1,
    {
        let mut q = self.take(key);
        let step = q.send(msg, flag, me);
        self.put(key, q);
        assert(self@ =~= old(self)@.insert(key, old(self)@[key].send(msg, flag, me).0));
        step
    }

    /// The coalescing VI retrace post to the queue at `key` (see `QueueView::send_coalescing`).
    pub fn send_coalescing(&mut self, key: usize, msg: usize) -> (step: SendStep)
        requires
            old(self).wf(),
            old(self)@.contains_key(key),
        ensures
            final(self).wf(),
            final(self)@ == old(self)@.insert(key, old(self)@[key].send_coalescing(msg).0),
            step == old(self)@[key].send_coalescing(msg).1,
    {
        let mut q = self.take(key);
        let step = q.send_coalescing(msg);
        self.put(key, q);
        assert(self@ =~= old(self)@.insert(key, old(self)@[key].send_coalescing(msg).0));
        step
    }

    /// osRecvMesg from the queue at `key` (see `QueueView::recv`).
    pub fn recv(&mut self, key: usize, flag: i32, me: usize) -> (step: RecvStep)
        requires
            old(self).wf(),
            old(self)@.contains_key(key),
        ensures
            final(self).wf(),
            final(self)@ == old(self)@.insert(key, old(self)@[key].recv(flag, me).0),
            step == old(self)@[key].recv(flag, me).1,
            old(self)@[key].msgs.len() == 0 && flag == OS_MESG_BLOCK ==> step == RecvStep::Park
                && final(self)@[key].recv_waiters == old(self)@[key].recv_waiters.push(me),
    {
        let mut q = self.take(key);
        let step = q.recv(flag, me);
        self.put(key, q);
        assert(self@ =~= old(self)@.insert(key, old(self)@[key].recv(flag, me).0));
        step
    }

    /// Can a completion be posted to `key` right now? 0 when a slot is free, -1 when the queue is
    /// full, -2 when there is no such queue. A device transfer runs only after a 0, so a transfer
    /// never happens without its completion.
    pub fn reserve(&self, key: usize) -> (r: i32)
        requires
            self.wf(),
        ensures
            r == (if !self@.contains_key(key) {
                -2i32
            } else if self@[key].msgs.len() < self@[key].cap {
                0i32
            } else {
                -1i32
            }),
    {
        match self.queues.get(&key) {
            None => -2,
            Some(q) => if q.has_room() {
                0
            } else {
                -1
            },
        }
    }
}

/// Non-blocking sends of `xs`, in order.
pub open spec fn send_all(q: QueueView, xs: Seq<usize>) -> QueueView
    decreases xs.len(),
{
    if xs.len() == 0 {
        q
    } else {
        send_all(q.send(xs[0], 0, 0).0, xs.drop_first())
    }
}

/// The messages that non-blocking receives return until the queue reports empty.
pub open spec fn drain(q: QueueView) -> Seq<usize>
    decreases q.msgs.len(),
{
    if q.msgs.len() == 0 {
        Seq::empty()
    } else {
        seq![q.recv(0, 0).1->msg] + drain(q.recv(0, 0).0)
    }
}

/// How many times `m` is pending.
pub open spec fn count_of(s: Seq<usize>, m: usize) -> nat
    decreases s.len(),
{
    if s.len() == 0 {
        0
    } else {
        count_of(s.drop_last(), m) + if s.last() == m {
            1nat
        } else {
            0nat
        }
    }
}

proof fn lemma_send_all_appends(q: QueueView, xs: Seq<usize>)
    requires
        q.msgs.len() + xs.len() <= q.cap,
    ensures
        send_all(q, xs).msgs == q.msgs + xs,
        send_all(q, xs).cap == q.cap,
    decreases xs.len(),
{
    if xs.len() > 0 {
        let q1 = q.send(xs[0], 0, 0).0;
        assert(q1.msgs == q.msgs.push(xs[0]));
        lemma_send_all_appends(q1, xs.drop_first());
        assert(q.msgs.push(xs[0]) + xs.drop_first() =~= q.msgs + xs);
    } else {
        assert(q.msgs + xs =~= q.msgs);
    }
}

proof fn lemma_drain_is_pending(q: QueueView)
    ensures
        drain(q) == q.msgs,
    decreases q.msgs.len(),
{
    if q.msgs.len() > 0 {
        lemma_drain_is_pending(q.recv(0, 0).0);
        assert(seq![q.msgs[0]] + q.msgs.drop_first() =~= q.msgs);
    } else {
        assert(drain(q) =~= q.msgs);
    }
}

proof fn lemma_count_push(s: Seq<usize>, x: usize, m: usize)
    ensures
        count_of(s.push(x), m) == count_of(s, m) + if x == m {
            1nat
        } else {
            0nat
        },
{
    assert(s.push(x).drop_last() =~= s);
}

proof fn lemma_count_contains(s: Seq<usize>, m: usize)
    ensures
        s.contains(m) <==> count_of(s, m) > 0,
    decreases s.len(),
{
    if s.len() > 0 {
        lemma_count_contains(s.drop_last(), m);
        if s.contains(m) {
            let i = choose|i: int| 0 <= i < s.len() && s[i] == m;
            if i < s.len() - 1 {
                assert(s.drop_last()[i] == m);
            }
        }
        if s.drop_last().contains(m) {
            let i = choose|i: int| 0 <= i < s.drop_last().len() && s.drop_last()[i] == m;
            assert(s[i] == m);
        }
        if s.last() == m {
            assert(s[s.len() - 1] == m);
        }
    }
}

/// A queue is first-in first-out: after non-blocking sends of `xs` that all fit, receiving until
/// empty returns what was pending, then `xs`, in order.
pub proof fn law_fifo(q: QueueView, xs: Seq<usize>)
    requires
        q.msgs.len() + xs.len() <= q.cap,
    ensures
        drain(send_all(q, xs)) == q.msgs + xs,
{
    lemma_send_all_appends(q, xs);
    lemma_drain_is_pending(send_all(q, xs));
}

/// A queue never holds more than its capacity, and a non-blocking send to a full queue changes
/// nothing and reports -1.
pub proof fn law_capacity_bound(q: QueueView, msg: usize, flag: i32, me: usize)
    requires
        q.wf(),
    ensures
        q.send(msg, flag, me).0.wf(),
        q.recv(flag, me).0.wf(),
        q.send_coalescing(msg).0.wf(),
        q.msgs.len() == q.cap && flag != OS_MESG_BLOCK ==> q.send(msg, flag, me) == (q, (SendStep::Done { ret: -1i32, wake: None })),
{
}

/// Coalesced posts keep at most one copy of the message outstanding: one that was pending at
/// most once stays so, and one that was absent is queued once when there is room.
pub proof fn law_coalescing_keeps_one_outstanding(q: QueueView, v: usize)
    requires
        count_of(q.msgs, v) <= 1,
    ensures
        count_of(q.send_coalescing(v).0.msgs, v) <= 1,
        count_of(q.msgs, v) == 0 && q.msgs.len() < q.cap ==> count_of(
            q.send_coalescing(v).0.msgs,
            v,
        ) == 1,
        q.send_coalescing(v).1 is Done,
{
    lemma_count_contains(q.msgs, v);
    lemma_count_push(q.msgs, v, v);
}

/// A coalesced post never displaces another message: every other message is pending exactly as
/// often as before.
pub proof fn law_coalescing_keeps_others(q: QueueView, v: usize, m: usize)
    requires
        m != v,
    ensures
        count_of(q.send_coalescing(v).0.msgs, m) == count_of(q.msgs, m),
{
    lemma_count_push(q.msgs, v, m);
}

/// Blocked receivers are woken in the order they blocked: a delivered message wakes the longest
/// waiting receiver, and a freed slot the longest waiting sender.
pub proof fn law_waiters_woken_in_order(q: QueueView, msg: usize)
    ensures
        q.msgs.len() < q.cap && q.recv_waiters.len() > 0 ==> q.send(msg, 0, 0).1 == (SendStep::Done {
            ret: 0,
            wake: Some(q.recv_waiters[0]),
        }),
        q.msgs.len() > 0 && q.send_waiters.len() > 0 ==> q.recv(0, 0).1 == (RecvStep::Done {
            ret: 0,
            msg: q.msgs[0],
            wake: Some(q.send_waiters[0]),
        }),
{
}

/// A blocking receive on an empty queue joins the end of the line of waiting receivers: after
/// two receivers block in turn, the line is what it was, then the first, then the second, and
/// the next delivered message wakes whoever blocked earliest (the first of them when no one was
/// waiting before).
pub proof fn law_blocked_receivers_line_up(q: QueueView, r1: usize, r2: usize, msg: usize, flag: i32)
    requires
        q.wf(),
        q.msgs.len() == 0,
    ensures
        q.recv(OS_MESG_BLOCK, r1).1 == RecvStep::Park,
        q.recv(OS_MESG_BLOCK, r1).0.recv_waiters == q.recv_waiters.push(r1),
        q.recv(OS_MESG_BLOCK, r1).0.recv(OS_MESG_BLOCK, r2).0.recv_waiters == q.recv_waiters + seq![r1, r2],
        q.recv(OS_MESG_BLOCK, r1).0.recv(OS_MESG_BLOCK, r2).0.send(msg, flag, 0).1 == (SendStep::Done {
            ret: 0,
            wake: Some(if q.recv_waiters.len() > 0 { q.recv_waiters[0] } else { r1 }),
        }),
{
    let q2 = q.recv(OS_MESG_BLOCK, r1).0.recv(OS_MESG_BLOCK, r2).0;
    assert(q2.recv_waiters =~= q.recv_waiters + seq![r1, r2]);
    assert(q2.recv_waiters[0] == (if q.recv_waiters.len() > 0 { q.recv_waiters[0] } else { r1 }));
}

} // verus!
