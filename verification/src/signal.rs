use vstd::prelude::*;
use crate::error::{IoErrorKind, KcpError};
use crate::queue::{Queue, QueueState, read_step, send_step, close_step, spec_new_state, spec_filled};
use crate::Poll;

verus! {

/// The outcome of waiting on a future and a signal at once: the future's
/// output or the signal's.
pub enum Sig<T, S> {
    Data(T),
    Signal(S),
}

/// What the reader task of a connector is told.
#[derive(Debug, Clone, Copy, PartialEq, Eq, Structural)]
pub enum KcpReadSig {
    Quit,
    Pause,
    Resume,
}

/// What the update task of a connector or listener is told.
#[derive(Debug, Clone, Copy, PartialEq, Eq, Structural)]
pub enum KcpUpdateSig {
    Pause,
    Stop,
    Resume,
}

/// The abstract state of a signal channel.
pub struct SignalState<T, W> {
    pub queue: QueueState<T, W>,
    pub read_closed: bool,
    pub send_closed: bool,
}

/// A channel of signals between two tasks: a queue, and a flag for each end
/// that records that the end has gone.
pub struct SignalImpl<T, W> {
    que: Queue<T, W>,
    read_closed: bool,
    send_closed: bool,
}

impl<T, W> View for SignalImpl<T, W> {
    type V = SignalState<T, W>;

    closed spec fn view(&self) -> SignalState<T, W> {
        SignalState { queue: self.que@, read_closed: self.read_closed, send_closed: self.send_closed }
    }
}

/// Closing the sending end: the queue is closed; the parked tasks returned
/// are to be woken.
pub open spec fn close_send_step<T, W>(s: SignalState<T, W>) -> (SignalState<T, W>, (Option<W>, Option<W>)) {
    let q = close_step(s.queue);
    (SignalState { queue: q.0, send_closed: true, ..s }, q.1)
}

/// Closing the receiving end: the queue is closed; the parked tasks
/// returned are to be woken.
pub open spec fn close_read_step<T, W>(s: SignalState<T, W>) -> (SignalState<T, W>, (Option<W>, Option<W>)) {
    let q = close_step(s.queue);
    (SignalState { queue: q.0, read_closed: true, ..s }, q.1)
}

/// Polling to send the signal `x` with the waker `w`.
pub open spec fn signal_send_step<T, W>(s: SignalState<T, W>, w: W, x: T) -> (
    SignalState<T, W>,
    Poll<Result<(), KcpError>>,
    Option<W>,
) {
    if s.read_closed {
        (s, Poll::Ready(Err(KcpError::SignalReadClosed)), None)
    } else {
        let q = send_step(s.queue, w, x);
        match q.1 {
            Poll::Pending => (SignalState { queue: q.0, ..s }, Poll::Pending, q.2),
            Poll::Ready(Ok(())) => (SignalState { queue: q.0, ..s }, Poll::Ready(Ok(())), q.2),
            Poll::Ready(Err(_)) => (
                SignalState { queue: q.0, read_closed: true, ..s },
                Poll::Ready(Err(KcpError::SignalReadClosed)),
                q.2,
            ),
        }
    }
}

/// Polling to receive a signal with the waker `w`. A queue closed under
/// the receiver is reported as `SignalReadClosed`.
pub open spec fn signal_recv_step<T, W>(s: SignalState<T, W>, w: W) -> (
    SignalState<T, W>,
    Poll<Result<T, KcpError>>,
    Option<W>,
) {
    if s.send_closed {
        (s, Poll::Ready(Err(KcpError::SignalSendClosed)), None)
    } else {
        let q = read_step(s.queue, w);
        match q.1 {
            Poll::Pending => (SignalState { queue: q.0, ..s }, Poll::Pending, q.2),
            Poll::Ready(Ok(t)) => (SignalState { queue: q.0, ..s }, Poll::Ready(Ok(t)), q.2),
            Poll::Ready(Err(_)) => (
                SignalState { queue: q.0, send_closed: true, ..s },
                Poll::Ready(Err(KcpError::SignalReadClosed)),
                q.2,
            ),
        }
    }
}

/// A new open channel whose queue holds `size` signals.
pub fn signal<T, W>(size: usize) -> (s: SignalImpl<T, W>)
    ensures
        s@ == (SignalState {
            queue: spec_new_state::<T, W>(size as nat),
            read_closed: false,
            send_closed: false,
        }),
{
    SignalImpl { que: Queue::new(size), read_closed: false, send_closed: false }
}

impl<T, W> SignalImpl<T, W> {
    /// The sending end goes away. Returns the parked tasks to wake.
    pub fn close_send(&mut self) -> (r: (Option<W>, Option<W>))
        ensures
            (final(self)@, r) == close_send_step(old(self)@),
    {
        self.send_closed = true;
        self.que.close()
    }

    /// The receiving end goes away. Returns the parked tasks to wake.
    pub fn close_read(&mut self) -> (r: (Option<W>, Option<W>))
        ensures
            (final(self)@, r) == close_read_step(old(self)@),
    {
        self.read_closed = true;
        self.que.close()
    }

    /// Polls to send the signal in `data`. Returns the outcome and the
    /// parked task to wake.
    pub fn poll_send(&mut self, waker: W, data: &mut Option<T>) -> (r: (
        Poll<Result<(), KcpError>>,
        Option<W>,
    ))
        requires
            !old(self)@.read_closed && !old(self)@.queue.closed && !spec_filled(old(self)@.queue)
                ==> old(data).is_some(),
        ensures
            (final(self)@, r.0, r.1) == signal_send_step(old(self)@, waker, old(data).unwrap()),
            r.0 == Poll::<Result<(), KcpError>>::Ready(Ok(())) ==> final(data).is_none(),
            r.0 != Poll::<Result<(), KcpError>>::Ready(Ok(())) ==> *final(data) == *old(data),
    {
        if self.read_closed {
            return (Poll::Ready(Err(KcpError::SignalReadClosed)), None);
        }
        let (p, w) = self.que.poll_send(waker, data);
        match p {
            Poll::Pending => (Poll::Pending, w),
            Poll::Ready(Ok(())) => (Poll::Ready(Ok(())), w),
            Poll::Ready(Err(_)) => {
                self.read_closed = true;
                (Poll::Ready(Err(KcpError::SignalReadClosed)), w)
            },
        }
    }

    /// Polls to receive a signal. Returns the outcome and the parked task to
    /// wake.
    pub fn poll_recv(&mut self, waker: W) -> (r: (Poll<Result<T, KcpError>>, Option<W>))
        ensures
            (final(self)@, r.0, r.1) == signal_recv_step(old(self)@, waker),
    {
        if self.send_closed {
            return (Poll::Ready(Err(KcpError::SignalSendClosed)), None);
        }
        let (p, w) = self.que.poll_recv(waker);
        match p {
            Poll::Pending => (Poll::Pending, w),
            Poll::Ready(Ok(t)) => (Poll::Ready(Ok(t)), w),
            Poll::Ready(Err(_)) => {
                self.send_closed = true;
                (Poll::Ready(Err(KcpError::SignalReadClosed)), w)
            },
        }
    }
}

/// A receive on a channel whose ends are both there: it takes the first
/// signal waiting and releases a parked sender, or, with none waiting,
/// parks the receiver; only a gone sender is reported as
/// `SignalSendClosed`.
pub proof fn lemma_signal_recv_waits<T, W>(s: SignalState<T, W>, w: W)
    ensures
        !s.read_closed && !s.send_closed && !s.queue.closed && s.queue.items.len() == 0 ==> signal_recv_step(s, w) == (
            SignalState { queue: QueueState { recv_waker: Some(w), ..s.queue }, ..s },
            Poll::<Result<T, KcpError>>::Pending,
            None::<W>,
        ),
        !s.send_closed && !s.queue.closed && s.queue.items.len() > 0 ==> signal_recv_step(s, w) == (
            SignalState {
                queue: QueueState { items: s.queue.items.drop_first(), send_waker: None, ..s.queue },
                ..s
            },
            Poll::<Result<T, KcpError>>::Ready(Ok(s.queue.items[0])),
            s.queue.send_waker,
        ),
        signal_recv_step(s, w).1 == Poll::<Result<T, KcpError>>::Ready(Err(KcpError::SignalSendClosed))
            ==> s.send_closed,
        s.send_closed ==> signal_recv_step(s, w) == (
            s,
            Poll::<Result<T, KcpError>>::Ready(Err(KcpError::SignalSendClosed)),
            None::<W>,
        ),
{
}

/// A send on a channel whose receiver is there and whose queue is open
/// puts the signal at the back when there is room, releasing a parked
/// receiver, and parks the sender otherwise; only a gone receiver or a
/// closed queue fails it.
pub proof fn lemma_signal_send_delivers<T, W>(s: SignalState<T, W>, w: W, x: T)
    ensures
        !s.read_closed && !s.queue.closed && s.queue.items.len() < s.queue.max ==> signal_send_step(s, w, x) == (
            SignalState {
                queue: QueueState { items: s.queue.items.push(x), recv_waker: None, ..s.queue },
                ..s
            },
            Poll::<Result<(), KcpError>>::Ready(Ok(())),
            s.queue.recv_waker,
        ),
        !s.read_closed && !s.queue.closed && s.queue.items.len() >= s.queue.max ==> signal_send_step(s, w, x) == (
            SignalState { queue: QueueState { send_waker: Some(w), ..s.queue }, ..s },
            Poll::<Result<(), KcpError>>::Pending,
            None::<W>,
        ),
        signal_send_step(s, w, x).1 matches Poll::Ready(Err(_)) ==> s.read_closed || s.queue.closed,
{
}

/// Once an end of a channel has gone, its queue is closed.
pub open spec fn signal_inv<T, W>(s: SignalState<T, W>) -> bool {
    (s.read_closed || s.send_closed) ==> s.queue.closed
}

/// Every operation on a channel keeps `signal_inv`, and a new channel
/// satisfies it.
pub proof fn lemma_signal_inv_kept<T, W>(s: SignalState<T, W>, w: W, x: T, size: nat)
    ensures
        signal_inv(SignalState { queue: spec_new_state::<T, W>(size), read_closed: false, send_closed: false }),
        signal_inv(s) ==> signal_inv(close_send_step(s).0),
        signal_inv(s) ==> signal_inv(close_read_step(s).0),
        signal_inv(s) ==> signal_inv(signal_send_step(s, w, x).0),
        signal_inv(s) ==> signal_inv(signal_recv_step(s, w).0),
{
}

/// Once either end of a channel has gone, every send and every receive
/// fails at once, and ends stay gone.
pub proof fn lemma_signal_gone_fails<T, W>(s: SignalState<T, W>, w: W, x: T)
    requires
        signal_inv(s),
        s.read_closed || s.send_closed,
    ensures
        signal_send_step(s, w, x).1 == Poll::<Result<(), KcpError>>::Ready(Err(KcpError::SignalReadClosed)),
        signal_recv_step(s, w).1 matches Poll::Ready(Err(_)),
        s.send_closed ==> signal_recv_step(s, w).1 == Poll::<Result<T, KcpError>>::Ready(Err(KcpError::SignalSendClosed)),
        signal_send_step(s, w, x).0.read_closed || signal_send_step(s, w, x).0.send_closed,
        signal_recv_step(s, w).0.read_closed || signal_recv_step(s, w).0.send_closed,
{
}

/// A signal sent on an open channel with room is the next one received.
pub proof fn lemma_signal_delivered<T, W>(s: SignalState<T, W>, w1: W, w2: W, x: T)
    requires
        !s.read_closed,
        !s.send_closed,
        !s.queue.closed,
        s.queue.items.len() == 0,
        s.queue.max > 0,
    ensures
        signal_send_step(s, w1, x).1 == Poll::<Result<(), KcpError>>::Ready(Ok(())),
        signal_recv_step(signal_send_step(s, w1, x).0, w2).1 == Poll::<Result<T, KcpError>>::Ready(Ok(x)),
{
    assert(!spec_filled(s.queue));
    let s1 = signal_send_step(s, w1, x).0;
    assert(s1.queue.items =~= seq![x]);
}

} // verus!
