use vstd::prelude::*;
use std::collections::VecDeque;
use crate::error::IoErrorKind;
use crate::Poll;

verus! {

/// The abstract state of a queue: the items waiting, in order, the limit
/// on items that `poll_send` respects, whether the queue is closed, and
/// the tasks parked on either end.
pub struct QueueState<T, W> {
    pub items: Seq<T>,
    pub max: nat,
    pub closed: bool,
    pub recv_waker: Option<W>,
    pub send_waker: Option<W>,
}

/// The state of a queue that both ends share: a FIFO of items with a limit
/// for senders that wait, a closed flag, and the wakers of a parked
/// receiver and a parked sender.
pub struct QueueImpl<T, W> {
    max: usize,
    queue: VecDeque<T>,
    closed: bool,
    recv_waker: Option<W>,
    send_waker: Option<W>,
}

/// A queue whose ends hand items over in order.
pub struct Queue<T, W>(QueueImpl<T, W>);

/// The state of a queue that `Queue::new(max)` makes.
pub open spec fn spec_new_state<T, W>(max: nat) -> QueueState<T, W> {
    QueueState {
        items: Seq::empty(),
        max: if max < 1 { max } else { 1 },
        closed: false,
        recv_waker: None,
        send_waker: None,
    }
}

/// Whether a sender has to wait.
pub open spec fn spec_filled<T, W>(s: QueueState<T, W>) -> bool {
    s.items.len() >= s.max
}

/// Closing: the queue is closed and both parked tasks are released, the
/// receiver's first.
pub open spec fn close_step<T, W>(s: QueueState<T, W>) -> (QueueState<T, W>, (Option<W>, Option<W>)) {
    (
        QueueState { closed: true, recv_waker: None, send_waker: None, ..s },
        (s.recv_waker, s.send_waker),
    )
}

/// Polling the receiving end with the waker `w`: the next state, the
/// outcome, and the parked sender to wake.
pub open spec fn read_step<T, W>(s: QueueState<T, W>, w: W) -> (
    QueueState<T, W>,
    Poll<Result<T, IoErrorKind>>,
    Option<W>,
) {
    if s.closed {
        (s, Poll::Ready(Err(IoErrorKind::Interrupted)), None)
    } else if s.items.len() > 0 {
        (
            QueueState { items: s.items.drop_first(), send_waker: None, ..s },
            Poll::Ready(Ok(s.items[0])),
            s.send_waker,
        )
    } else {
        (QueueState { recv_waker: Some(w), ..s }, Poll::Pending, None)
    }
}

/// Polling the sending end with the waker `w` and the item `x`: the next
/// state, the outcome, and the parked receiver to wake.
pub open spec fn send_step<T, W>(s: QueueState<T, W>, w: W, x: T) -> (
    QueueState<T, W>,
    Poll<Result<(), IoErrorKind>>,
    Option<W>,
) {
    if s.closed {
        (s, Poll::Ready(Err(IoErrorKind::Interrupted)), None)
    } else if spec_filled(s) {
        (QueueState { send_waker: Some(w), ..s }, Poll::Pending, None)
    } else {
        (
            QueueState { items: s.items.push(x), recv_waker: None, ..s },
            Poll::Ready(Ok(())),
            s.recv_waker,
        )
    }
}

/// Sending without waiting: the item goes in whatever the limit, unless the
/// queue is closed; the waker returned is the one to wake.
pub open spec fn block_send_step<T, W>(s: QueueState<T, W>, x: T) -> (
    QueueState<T, W>,
    Result<(), IoErrorKind>,
    Option<W>,
) {
    if s.closed {
        (QueueState { send_waker: None, ..s }, Err(IoErrorKind::Interrupted), s.send_waker)
    } else {
        (QueueState { items: s.items.push(x), recv_waker: None, ..s }, Ok(()), s.recv_waker)
    }
}


/// The state after sending each item of `xs` in turn without waiting.
pub open spec fn block_send_all<T, W>(s: QueueState<T, W>, xs: Seq<T>) -> QueueState<T, W>
    decreases xs.len(),
{
    if xs.len() == 0 {
        s
    } else {
        block_send_all(block_send_step(s, xs[0]).0, xs.drop_first())
    }
}

/// Polling the receiving end `n` times with the waker `w`: the state after
/// the last poll and the outcomes in order.
pub open spec fn read_n<T, W>(s: QueueState<T, W>, w: W, n: nat) -> (
    QueueState<T, W>,
    Seq<Poll<Result<T, IoErrorKind>>>,
)
    decreases n,
{
    if n == 0 {
        (s, Seq::empty())
    } else {
        let first = read_step(s, w);
        let rest = read_n(first.0, w, (n - 1) as nat);
        (rest.0, seq![first.1] + rest.1)
    }
}

/// The outcome of a receive that got the item `x`.
pub open spec fn received<T>(x: T) -> Poll<Result<T, IoErrorKind>> {
    Poll::Ready(Ok(x))
}

proof fn lemma_block_send_all_appends<T, W>(s: QueueState<T, W>, xs: Seq<T>)
    requires
        !s.closed,
    ensures
        block_send_all(s, xs).items == s.items + xs,
        !block_send_all(s, xs).closed,
        block_send_all(s, xs).max == s.max,
    decreases xs.len(),
{
    if xs.len() > 0 {
        let s1 = block_send_step(s, xs[0]).0;
        lemma_block_send_all_appends(s1, xs.drop_first());
        assert(s.items.push(xs[0]) + xs.drop_first() =~= s.items + xs);
    } else {
        assert(s.items + xs =~= s.items);
    }
}

proof fn lemma_read_n_takes_front<T, W>(s: QueueState<T, W>, w: W, n: nat)
    requires
        !s.closed,
        n <= s.items.len(),
    ensures
        read_n(s, w, n).1 == s.items.take(n as int).map_values(|x: T| received(x)),
        read_n(s, w, n).0.items == s.items.skip(n as int),
    decreases n,
{
    if n == 0 {
        assert(s.items.take(0).map_values(|x: T| received(x)) =~= Seq::empty());
        assert(s.items.skip(0) =~= s.items);
    } else {
        let s1 = read_step(s, w).0;
        lemma_read_n_takes_front(s1, w, (n - 1) as nat);
        assert(s1.items =~= s.items.drop_first());
        assert(seq![received(s.items[0])] + s1.items.take(n - 1).map_values(|x: T| received(x))
            =~= s.items.take(n as int).map_values(|x: T| received(x)));
        assert(s1.items.skip(n - 1) =~= s.items.skip(n as int));
    }
}

/// A queue hands items over in the order they were sent: on an open empty
/// queue, sending the items of `xs` without waiting and then polling the
/// receiving end as many times receives exactly the items of `xs`, in
/// order, and leaves the queue empty.
pub proof fn lemma_queue_fifo<T, W>(s: QueueState<T, W>, xs: Seq<T>, w: W)
    requires
        !s.closed,
        s.items.len() == 0,
    ensures
        read_n(block_send_all(s, xs), w, xs.len()).1 == xs.map_values(|x: T| received(x)),
        read_n(block_send_all(s, xs), w, xs.len()).0.items.len() == 0,
{
    lemma_block_send_all_appends(s, xs);
    let t = block_send_all(s, xs);
    assert(t.items =~= xs);
    lemma_read_n_takes_front(t, w, xs.len());
    assert(t.items.take(xs.len() as int) =~= xs);
}

/// An operation on an open queue: polling to receive, polling to send an
/// item, or sending an item without waiting.
pub enum QueueOp<T, W> {
    Recv(W),
    Send(W, T),
    BlockSend(T),
}

/// The effect of one operation: the next state, the items it put in, and
/// the items it took out.
pub open spec fn apply_op<T, W>(s: QueueState<T, W>, op: QueueOp<T, W>) -> (QueueState<T, W>, Seq<T>, Seq<T>) {
    match op {
        QueueOp::Recv(w) => {
            let r = read_step(s, w);
            (r.0, Seq::empty(), match r.1 {
                Poll::Ready(Ok(x)) => seq![x],
                _ => Seq::empty(),
            })
        },
        QueueOp::Send(w, x) => {
            let r = send_step(s, w, x);
            (r.0, match r.1 {
                Poll::Ready(Ok(())) => seq![x],
                _ => Seq::empty(),
            }, Seq::empty())
        },
        QueueOp::BlockSend(x) => {
            let r = block_send_step(s, x);
            (r.0, match r.1 {
                Ok(()) => seq![x],
                _ => Seq::empty(),
            }, Seq::empty())
        },
    }
}

/// The effect of the operations `ops` in turn: the final state, all the
/// items put in, in order, and all the items taken out, in order.
pub open spec fn run_ops<T, W>(s: QueueState<T, W>, ops: Seq<QueueOp<T, W>>) -> (QueueState<T, W>, Seq<T>, Seq<T>)
    decreases ops.len(),
{
    if ops.len() == 0 {
        (s, Seq::empty(), Seq::empty())
    } else {
        let first = apply_op(s, ops[0]);
        let rest = run_ops(first.0, ops.drop_first());
        (rest.0, first.1 + rest.1, first.2 + rest.2)
    }
}

proof fn lemma_apply_op_keeps_order<T, W>(s: QueueState<T, W>, op: QueueOp<T, W>)
    requires
        !s.closed,
    ensures
        s.items + apply_op(s, op).1 == apply_op(s, op).2 + apply_op(s, op).0.items,
        !apply_op(s, op).0.closed,
{
    match op {
        QueueOp::Recv(w) => {
            if s.items.len() > 0 {
                assert(s.items =~= seq![s.items[0]] + s.items.drop_first());
            } else {
                assert(s.items + Seq::<T>::empty() =~= Seq::<T>::empty() + s.items);
            }
            assert(s.items + Seq::<T>::empty() =~= s.items);
        },
        QueueOp::Send(w, x) => {
            assert(Seq::<T>::empty() + s.items =~= s.items);
            assert(s.items + Seq::<T>::empty() =~= s.items);
            assert(s.items + seq![x] =~= s.items.push(x));
        },
        QueueOp::BlockSend(x) => {
            assert(Seq::<T>::empty() + s.items.push(x) =~= s.items + seq![x]);
        },
    }
}

/// A queue never loses, duplicates or reorders an item, over any mix of
/// polled receives, polled sends and sends without waiting: what it held
/// followed by what was put in equals what was taken out followed by what
/// it holds.
pub proof fn lemma_queue_keeps_order<T, W>(s: QueueState<T, W>, ops: Seq<QueueOp<T, W>>)
    requires
        !s.closed,
    ensures
        s.items + run_ops(s, ops).1 == run_ops(s, ops).2 + run_ops(s, ops).0.items,
        !run_ops(s, ops).0.closed,
    decreases ops.len(),
{
    if ops.len() == 0 {
        assert(s.items + Seq::<T>::empty() =~= Seq::<T>::empty() + s.items);
    } else {
        let first = apply_op(s, ops[0]);
        lemma_apply_op_keeps_order(s, ops[0]);
        lemma_queue_keeps_order(first.0, ops.drop_first());
        let rest = run_ops(first.0, ops.drop_first());
        assert(s.items + (first.1 + rest.1) =~= (s.items + first.1) + rest.1);
        assert((first.2 + first.0.items) + rest.1 =~= first.2 + (first.0.items + rest.1));
        assert(first.2 + (rest.2 + rest.0.items) =~= (first.2 + rest.2) + rest.0.items);
    }
}

/// In particular, on an open empty queue the items taken out are, in
/// order, a prefix of the items put in.
pub proof fn lemma_queue_receives_prefix<T, W>(s: QueueState<T, W>, ops: Seq<QueueOp<T, W>>)
    requires
        !s.closed,
        s.items.len() == 0,
    ensures
        run_ops(s, ops).2 == run_ops(s, ops).1.take(run_ops(s, ops).2.len() as int),
{
    lemma_queue_keeps_order(s, ops);
    let r = run_ops(s, ops);
    assert(s.items + r.1 =~= r.1);
    assert((r.2 + r.0.items).take(r.2.len() as int) =~= r.2);
}

/// A closed queue refuses everything with `Interrupted`: receiving and
/// polling to send change nothing, sending without waiting only releases
/// the parked sender, and closing again keeps it closed with its items.
pub proof fn lemma_closed_queue_refuses<T, W>(s: QueueState<T, W>, w: W, x: T)
    requires
        s.closed,
    ensures
        read_step(s, w) == (s, Poll::<Result<T, IoErrorKind>>::Ready(Err(IoErrorKind::Interrupted)), None::<W>),
        send_step(s, w, x) == (s, Poll::<Result<(), IoErrorKind>>::Ready(Err(IoErrorKind::Interrupted)), None::<W>),
        block_send_step(s, x).1 == Err::<(), IoErrorKind>(IoErrorKind::Interrupted),
        block_send_step(s, x).0.items == s.items,
        block_send_step(s, x).0.closed,
        close_step(s).0.closed,
        close_step(s).0.items == s.items,
{
}

/// Closing is final: from a closed queue no operation reopens it.
pub proof fn lemma_close_is_final<T, W>(s: QueueState<T, W>, w: W, x: T)
    ensures
        close_step(s).0.closed,
        s.closed ==> read_step(s, w).0.closed && send_step(s, w, x).0.closed
            && block_send_step(s, x).0.closed,
{
}

/// Senders that poll never fill a queue beyond its limit: an accepted send
/// finds fewer items than the limit.
pub proof fn lemma_polled_send_respects_limit<T, W>(s: QueueState<T, W>, w: W, x: T)
    requires
        s.items.len() <= s.max,
    ensures
        send_step(s, w, x).0.items.len() <= s.max,
        send_step(s, w, x).1 == Poll::<Result<(), IoErrorKind>>::Ready(Ok(())) ==> s.items.len() < s.max,
{
}

/// The only error a queue reports is `Interrupted`, and only once it is
/// closed.
pub proof fn lemma_queue_errors_are_interrupted<T, W>(s: QueueState<T, W>, w: W, x: T)
    ensures
        read_step(s, w).1 matches Poll::Ready(Err(e)) ==> e == IoErrorKind::Interrupted && s.closed,
        send_step(s, w, x).1 matches Poll::Ready(Err(e)) ==> e == IoErrorKind::Interrupted && s.closed,
        block_send_step(s, x).1 matches Err(e) ==> e == IoErrorKind::Interrupted && s.closed,
{
}

/// No wake-up is lost: a receiver that parks on an empty open queue is
/// handed back by the next send that goes through, and a sender that
/// parks on a filled queue is handed back by the next receive that takes
/// an item; closing hands back both.
pub proof fn lemma_parked_tasks_are_woken<T, W>(s: QueueState<T, W>, wr: W, ws: W, w: W, x: T)
    requires
        !s.closed,
    ensures
        s.items.len() == 0 && !spec_filled(read_step(s, wr).0) ==> send_step(read_step(s, wr).0, w, x).2
            == Some(wr),
        s.items.len() == 0 ==> block_send_step(read_step(s, wr).0, x).2 == Some(wr),
        spec_filled(s) && s.items.len() > 0 ==> read_step(send_step(s, ws, x).0, w).2 == Some(ws),
        s.items.len() == 0 ==> close_step(read_step(s, wr).0).1.0 == Some(wr),
        spec_filled(s) ==> close_step(send_step(s, ws, x).0).1.1 == Some(ws),
{
}

impl<T, W> View for QueueImpl<T, W> {
    type V = QueueState<T, W>;

    closed spec fn view(&self) -> QueueState<T, W> {
        QueueState {
            items: self.queue@,
            max: self.max as nat,
            closed: self.closed,
            recv_waker: self.recv_waker,
            send_waker: self.send_waker,
        }
    }
}

impl<T, W> QueueImpl<T, W> {
    fn filled(&self) -> (r: bool)
        ensures
            r == spec_filled(self@),
    {
        self.queue.len() >= self.max
    }

    fn wake_recv(&mut self) -> (r: Option<W>)
        ensures
            r == old(self)@.recv_waker,
            final(self)@ == (QueueState { recv_waker: None, ..old(self)@ }),
    {
        self.recv_waker.take()
    }

    fn wake_send(&mut self) -> (r: Option<W>)
        ensures
            r == old(self)@.send_waker,
            final(self)@ == (QueueState { send_waker: None, ..old(self)@ }),
    {
        self.send_waker.take()
    }

    fn close(&mut self) -> (r: (Option<W>, Option<W>))
        ensures
            (final(self)@, r) == close_step(old(self)@),
    {
        self.closed = true;
        let r = self.wake_recv();
        let s = self.wake_send();
        (r, s)
    }

    fn poll_read(&mut self, waker: W) -> (r: (Poll<Result<T, IoErrorKind>>, Option<W>))
        ensures
            (final(self)@, r.0, r.1) == read_step(old(self)@, waker),
    {
        if self.closed {
            return (Poll::Ready(Err(IoErrorKind::Interrupted)), None);
        }
        match self.queue.pop_front() {
            Some(data) => {
                let w = self.wake_send();
                (Poll::Ready(Ok(data)), w)
            },
            None => {
                self.recv_waker = Some(waker);
                (Poll::Pending, None)
            },
        }
    }

    fn poll_send(&mut self, waker: W, data: &mut Option<T>) -> (r: (
        Poll<Result<(), IoErrorKind>>,
        Option<W>,
    ))
        requires
            !old(self)@.closed && !spec_filled(old(self)@) ==> old(data).is_some(),
        ensures
            (final(self)@, r.0, r.1) == send_step(old(self)@, waker, old(data).unwrap()),
            r.0 == Poll::<Result<(), IoErrorKind>>::Ready(Ok(())) ==> final(data).is_none(),
            r.0 != Poll::<Result<(), IoErrorKind>>::Ready(Ok(())) ==> *final(data) == *old(data),
    {
        if self.closed {
            return (Poll::Ready(Err(IoErrorKind::Interrupted)), None);
        }
        if self.filled() {
            self.send_waker = Some(waker);
            (Poll::Pending, None)
        } else {
            let item = data.take().unwrap();
            self.queue.push_back(item);
            let w = self.wake_recv();
            (Poll::Ready(Ok(())), w)
        }
    }

    fn push_back(&mut self, t: T)
        ensures
            final(self)@ == (QueueState { items: old(self)@.items.push(t), ..old(self)@ }),
    {
        self.queue.push_back(t);
    }
}

impl<T, W> View for Queue<T, W> {
    type V = QueueState<T, W>;

    closed spec fn view(&self) -> QueueState<T, W> {
        self.0@
    }
}

impl<T, W> Queue<T, W> {
    /// An empty open queue. A sender that polls waits while the queue holds
    /// `min(max, 1)` items or more.
    pub fn new(max: usize) -> (q: Queue<T, W>)
        ensures
            q@ == spec_new_state::<T, W>(max as nat),
    {
        let m = if max < 1 { max } else { 1 };
        Queue(
            QueueImpl {
                max: m,
                closed: false,
                queue: VecDeque::new(),
                recv_waker: None,
                send_waker: None,
            },
        )
    }

    /// Puts `t` at the back without waiting, unless the queue is closed.
    /// Returns the result and the parked task to wake.
    pub fn block_send(&mut self, t: T) -> (r: (Result<(), IoErrorKind>, Option<W>))
        ensures
            (final(self)@, r.0, r.1) == block_send_step(old(self)@, t),
    {
        if self.0.closed {
            let w = self.0.wake_send();
            (Err(IoErrorKind::Interrupted), w)
        } else {
            self.0.push_back(t);
            let w = self.0.wake_recv();
            (Ok(()), w)
        }
    }

    /// Closes the queue. Returns the parked receiver and the parked sender,
    /// to wake.
    pub fn close(&mut self) -> (r: (Option<W>, Option<W>))
        ensures
            (final(self)@, r) == close_step(old(self)@),
    {
        self.0.close()
    }

    /// Takes the item at the front, or parks `waker` while there is none.
    /// Returns the outcome and the parked sender to wake.
    pub fn poll_recv(&mut self, waker: W) -> (r: (Poll<Result<T, IoErrorKind>>, Option<W>))
        ensures
            (final(self)@, r.0, r.1) == read_step(old(self)@, waker),
    {
        self.0.poll_read(waker)
    }

    /// Moves the item out of `data` to the back, or parks `waker` while the
    /// queue is filled. Returns the outcome and the parked receiver to wake.
    pub fn poll_send(&mut self, waker: W, data: &mut Option<T>) -> (r: (
        Poll<Result<(), IoErrorKind>>,
        Option<W>,
    ))
        requires
            !old(self)@.closed && !spec_filled(old(self)@) ==> old(data).is_some(),
        ensures
            (final(self)@, r.0, r.1) == send_step(old(self)@, waker, old(data).unwrap()),
            r.0 == Poll::<Result<(), IoErrorKind>>::Ready(Ok(())) ==> final(data).is_none(),
            r.0 != Poll::<Result<(), IoErrorKind>>::Ready(Ok(())) ==> *final(data) == *old(data),
    {
        self.0.poll_send(waker, data)
    }
}

} // verus!
