use vstd::prelude::*;
use crate::error::{IoErrorKind, KcpError};
use crate::kcp::KcpConfig;
use crate::Poll;
use crate::signal::{KcpUpdateSig, Sig};
use crate::queue::{Queue, QueueState, spec_new_state, spec_filled, close_step, read_step, send_step};

verus! {

/// The state that a session keeps beside its KCP engine: when it last
/// sent and received, which directions are closed, its deadlines, and the
/// tasks parked on it.
pub struct KcpImpl<W> {
    pub last_send: u32,
    pub last_recv: u32,
    pub send_closed: bool,
    pub recv_closed: bool,
    pub next_update: u32,
    pub close_delay: u32,
    pub recv_timeout: u32,
    pub send_timeout: u32,
    pub recv_waker: Option<W>,
    pub send_waker: Option<W>,
    pub close_waker: Option<W>,
    pub flush_waker: Option<W>,
}

/// A session's state, driven by its tasks and by the poller. Every method
/// returns the parked tasks that it released, which the caller wakes.
pub struct SafeKcp<W>(KcpImpl<W>);

impl<W> View for SafeKcp<W> {
    type V = KcpImpl<W>;

    closed spec fn view(&self) -> KcpImpl<W> {
        self.0
    }
}

/// Both directions are closed.
pub open spec fn spec_closed<W>(s: KcpImpl<W>) -> bool {
    s.recv_closed && s.send_closed
}

/// The sequence holding the waker in `o`, if there is one.
pub open spec fn opt_seq<W>(o: Option<W>) -> Seq<W> {
    match o {
        Some(w) => seq![w],
        None => Seq::empty(),
    }
}

/// All parked tasks, in the order send, receive, flush, close.
pub open spec fn parked<W>(s: KcpImpl<W>) -> Seq<W> {
    opt_seq(s.send_waker) + opt_seq(s.recv_waker) + opt_seq(s.flush_waker) + opt_seq(s.close_waker)
}

/// The state with no task parked.
pub open spec fn unparked<W>(s: KcpImpl<W>) -> KcpImpl<W> {
    KcpImpl { recv_waker: None, send_waker: None, close_waker: None, flush_waker: None, ..s }
}

/// The state of a session created at `now` with the given configuration.
pub open spec fn spec_wrap<W>(config: KcpConfig, now: u32) -> KcpImpl<W> {
    KcpImpl {
        last_send: now,
        last_recv: now,
        send_closed: false,
        recv_closed: false,
        next_update: now,
        close_delay: config.close_delay,
        recv_timeout: config.timeout,
        send_timeout: config.timeout,
        recv_waker: None,
        send_waker: None,
        close_waker: None,
        flush_waker: None,
    }
}

/// Whether the poller should update the session, given what the engine's
/// check reports for now.
pub open spec fn spec_updatable<W>(s: KcpImpl<W>, check_now: u32) -> bool {
    spec_closed(s) || s.next_update <= check_now
}

/// Closing a session by force: both directions close and every parked task
/// is released; a closed session is left as it is.
pub open spec fn force_close_step<W>(s: KcpImpl<W>) -> (KcpImpl<W>, Seq<W>) {
    if spec_closed(s) {
        (s, Seq::empty())
    } else {
        (unparked(KcpImpl { send_closed: true, recv_closed: true, ..s }), parked(s))
    }
}

/// Updating a session at `now`: the next state, the result, and the task
/// to wake. `Ok` means that the engine is to be updated at `now`. A task
/// parked for longer than its deadline since the last packet arrived fails
/// the update: a closing task after `close_delay`, then a receiver after
/// `recv_timeout`, a sender and then a flusher after `send_timeout`.
pub open spec fn update_step<W>(s: KcpImpl<W>, now: u32) -> (KcpImpl<W>, Result<(), KcpError>, Option<W>) {
    if spec_closed(s) {
        (s, Err(KcpError::Closed), None)
    } else if now < s.last_send {
        (s, Ok(()), None)
    } else {
        let diff = (now - s.last_send) as u32;
        if s.close_waker.is_some() && diff > s.close_delay {
            (
                KcpImpl { recv_closed: true, send_closed: true, close_waker: None, ..s },
                Err(KcpError::Closed),
                s.close_waker,
            )
        } else if s.recv_waker.is_some() && diff > s.recv_timeout {
            (
                KcpImpl { recv_closed: true, recv_waker: None, ..s },
                Err(KcpError::ReadTimeout(diff)),
                s.recv_waker,
            )
        } else if s.send_waker.is_some() && diff > s.send_timeout {
            (
                KcpImpl { recv_closed: true, send_waker: None, ..s },
                Err(KcpError::WriteTimeout(diff)),
                s.send_waker,
            )
        } else if s.flush_waker.is_some() && diff > s.send_timeout {
            (
                KcpImpl { recv_closed: true, flush_waker: None, ..s },
                Err(KcpError::WriteTimeout(diff)),
                s.flush_waker,
            )
        } else {
            (s, Ok(()), None)
        }
    }
}

/// Recording what the engine said of an incoming packet, at `now`: an
/// accepted packet renews the session, a refused one closes the receiving
/// direction; either way every parked task is released.
pub open spec fn input_step<W>(s: KcpImpl<W>, input: Result<(), KcpError>, now: u32) -> (
    KcpImpl<W>,
    Seq<W>,
) {
    let s1 = match input {
        Ok(()) => KcpImpl { last_send: now, ..s },
        Err(_) => KcpImpl { recv_closed: true, ..s },
    };
    (unparked(s1), parked(s1))
}

/// Polling to write, given how many segments wait to be sent and the send
/// window. `Ready(Ok(()))` means that the write goes to the engine now.
pub open spec fn send_poll_step<W>(s: KcpImpl<W>, w: W, waitsnd: u32, sndwnd: i32) -> (
    KcpImpl<W>,
    Poll<Result<(), IoErrorKind>>,
) {
    if spec_closed(s) || s.send_closed {
        (s, Poll::Ready(Err(IoErrorKind::BrokenPipe)))
    } else if waitsnd >= sndwnd as u32 {
        (KcpImpl { send_waker: Some(w), ..s }, Poll::Pending)
    } else {
        (s, Poll::Ready(Ok(())))
    }
}

/// Polling to read at `now`, given the size of the next message waiting
/// (negative for none). `Ready(Ok(()))` means that the read goes to the
/// engine now. A parked writer is released unless the session is closed.
pub open spec fn recv_poll_step<W>(s: KcpImpl<W>, w: W, peeksize: i32, now: u32) -> (
    KcpImpl<W>,
    Poll<Result<(), IoErrorKind>>,
    Option<W>,
) {
    if spec_closed(s) {
        (s, Poll::Ready(Err(IoErrorKind::BrokenPipe)), None)
    } else {
        let (s1, p) = if s.recv_closed {
            (s, Poll::Ready(Err(IoErrorKind::UnexpectedEof)))
        } else if peeksize < 0 {
            (KcpImpl { recv_waker: Some(w), ..s }, Poll::Pending)
        } else {
            (KcpImpl { last_recv: now, ..s }, Poll::Ready(Ok(())))
        };
        (KcpImpl { send_waker: None, ..s1 }, p, s1.send_waker)
    }
}

/// Polling to flush, given how many segments wait to be sent.
pub open spec fn flush_poll_step<W>(s: KcpImpl<W>, w: W, waitsnd: u32) -> (
    KcpImpl<W>,
    Poll<Result<(), IoErrorKind>>,
) {
    if spec_closed(s) {
        (s, Poll::Ready(Err(IoErrorKind::BrokenPipe)))
    } else if waitsnd > 0 {
        (KcpImpl { flush_waker: Some(w), ..s }, Poll::Pending)
    } else {
        (s, Poll::Ready(Ok(())))
    }
}

/// Polling to close at `now`: a session closes once nothing waits to be
/// sent and `close_delay` has passed since the last packet arrived.
pub open spec fn close_poll_step<W>(s: KcpImpl<W>, w: W, waitsnd: u32, now: u32) -> (
    KcpImpl<W>,
    Poll<Result<(), IoErrorKind>>,
) {
    if spec_closed(s) {
        (s, Poll::Ready(Ok(())))
    } else if waitsnd > 0 || now < s.last_send || now - s.last_send < s.close_delay {
        (KcpImpl { close_waker: Some(w), ..s }, Poll::Pending)
    } else {
        (s, Poll::Ready(Ok(())))
    }
}

/// What the poller does with a session in one round.
pub enum SessionStep<W> {
    /// The session is closed: drop it, and wake these tasks.
    Retire(Vec<W>),
    /// Nothing to do this round.
    Keep,
    /// Update the engine, then wake these tasks.
    Update(Vec<W>),
}

/// The abstract form of a `SessionStep`.
pub enum SessionOutcome<W> {
    Retire(Seq<W>),
    Keep,
    Update(Seq<W>),
}

impl<W> View for SessionStep<W> {
    type V = SessionOutcome<W>;

    open spec fn view(&self) -> SessionOutcome<W> {
        match self {
            SessionStep::Retire(v) => SessionOutcome::Retire(v@),
            SessionStep::Keep => SessionOutcome::Keep,
            SessionStep::Update(v) => SessionOutcome::Update(v@),
        }
    }
}

/// One round of the poller over a session at `now`, given the engine's
/// check at `now`.
pub open spec fn session_step<W>(s: KcpImpl<W>, now: u32, check_now: u32) -> (
    KcpImpl<W>,
    SessionOutcome<W>,
) {
    if spec_closed(s) {
        (s, SessionOutcome::Retire(Seq::empty()))
    } else if !spec_updatable(s, check_now) {
        (s, SessionOutcome::Keep)
    } else {
        let u = update_step(s, now);
        match u.1 {
            Err(_) => {
                let f = force_close_step(u.0);
                (f.0, SessionOutcome::Retire(opt_seq(u.2) + f.1))
            },
            Ok(()) => (unparked(u.0), SessionOutcome::Update(parked(u.0))),
        }
    }
}

fn push_opt<W>(v: &mut Vec<W>, o: Option<W>)
    ensures
        final(v)@ == old(v)@ + opt_seq(o),
{
    match o {
        Some(w) => {
            v.push(w);
        },
        None => {
            assert(old(v)@ + opt_seq(o) =~= old(v)@);
        },
    }
}

impl<W> SafeKcp<W> {
    /// The state of a session whose engine was just created and updated at
    /// `now`.
    pub fn wrap(config: &KcpConfig, now: u32) -> (k: SafeKcp<W>)
        ensures
            k@ == spec_wrap::<W>(*config, now),
    {
        SafeKcp(
            KcpImpl {
                close_delay: config.close_delay,
                last_recv: now,
                last_send: now,
                recv_waker: None,
                send_waker: None,
                close_waker: None,
                flush_waker: None,
                next_update: now,
                send_closed: false,
                recv_closed: false,
                recv_timeout: config.timeout,
                send_timeout: config.timeout,
            },
        )
    }

    /// Releases the parked writer.
    pub fn try_wake_send(&mut self) -> (r: Option<W>)
        ensures
            r == old(self)@.send_waker,
            final(self)@ == (KcpImpl { send_waker: None, ..old(self)@ }),
    {
        self.0.send_waker.take()
    }

    /// Releases the parked reader.
    pub fn try_wake_recv(&mut self) -> (r: Option<W>)
        ensures
            r == old(self)@.recv_waker,
            final(self)@ == (KcpImpl { recv_waker: None, ..old(self)@ }),
    {
        self.0.recv_waker.take()
    }

    /// Releases the parked flusher.
    pub fn try_wake_flush(&mut self) -> (r: Option<W>)
        ensures
            r == old(self)@.flush_waker,
            final(self)@ == (KcpImpl { flush_waker: None, ..old(self)@ }),
    {
        self.0.flush_waker.take()
    }

    /// Releases the parked closer.
    pub fn try_wake_close(&mut self) -> (r: Option<W>)
        ensures
            r == old(self)@.close_waker,
            final(self)@ == (KcpImpl { close_waker: None, ..old(self)@ }),
    {
        self.0.close_waker.take()
    }

    /// Releases every parked task: the writer, the reader, the flusher and
    /// the closer, in that order.
    pub fn try_wake_all(&mut self) -> (r: Vec<W>)
        ensures
            r@ == parked(old(self)@),
            final(self)@ == unparked(old(self)@),
    {
        let mut v: Vec<W> = Vec::new();
        let s = self.try_wake_send();
        push_opt(&mut v, s);
        let r = self.try_wake_recv();
        push_opt(&mut v, r);
        let f = self.try_wake_flush();
        push_opt(&mut v, f);
        let c = self.try_wake_close();
        push_opt(&mut v, c);
        assert(v@ =~= parked(old(self)@));
        v
    }

    /// Whether both directions are closed.
    pub fn closed(&self) -> (r: bool)
        ensures
            r == spec_closed(self@),
    {
        self.0.recv_closed && self.0.send_closed
    }

    /// Whether the poller should update the session, given what the
    /// engine's check reports for now.
    pub fn updatable(&self, check_now: u32) -> (r: bool)
        ensures
            r == spec_updatable(self@, check_now),
    {
        if self.closed() {
            true
        } else {
            self.0.next_update <= check_now
        }
    }

    /// Closes both directions and releases every parked task.
    pub fn force_close(&mut self) -> (r: Vec<W>)
        ensures
            (final(self)@, r@) == force_close_step(old(self)@),
    {
        if self.closed() {
            return Vec::new();
        }
        self.0.send_closed = true;
        self.0.recv_closed = true;
        self.try_wake_all()
    }

    /// Decides the update of the session at `now`. Returns the result and
    /// the task to wake; on `Ok` the caller updates the engine at `now`.
    pub fn update(&mut self, now: u32) -> (r: (Result<(), KcpError>, Option<W>))
        ensures
            (final(self)@, r.0, r.1) == update_step(old(self)@, now),
    {
        if self.closed() {
            return (Err(KcpError::Closed), None);
        }
        if now >= self.0.last_send {
            let diff = now - self.0.last_send;
            if self.0.close_waker.is_some() && diff > self.0.close_delay {
                self.0.recv_closed = true;
                self.0.send_closed = true;
                let w = self.0.close_waker.take();
                return (Err(KcpError::Closed), w);
            }
            if self.0.recv_waker.is_some() && diff > self.0.recv_timeout {
                self.0.recv_closed = true;
                let w = self.0.recv_waker.take();
                return (Err(KcpError::ReadTimeout(diff)), w);
            }
            if self.0.send_waker.is_some() && diff > self.0.send_timeout {
                self.0.recv_closed = true;
                let w = self.0.send_waker.take();
                return (Err(KcpError::WriteTimeout(diff)), w);
            }
            if self.0.flush_waker.is_some() && diff > self.0.send_timeout {
                self.0.recv_closed = true;
                let w = self.0.flush_waker.take();
                return (Err(KcpError::WriteTimeout(diff)), w);
            }
        }
        (Ok(()), None)
    }

    /// Records what the engine said of an incoming packet, at `now`, and
    /// releases every parked task. Returns the engine's result.
    pub fn poll_input(&mut self, input: Result<(), KcpError>, now: u32) -> (r: (
        Result<(), KcpError>,
        Vec<W>,
    ))
        ensures
            r.0 == input,
            (final(self)@, r.1@) == input_step(old(self)@, input, now),
    {
        if input.is_ok() {
            self.0.last_send = now;
        } else {
            self.0.recv_closed = true;
        }
        let woken = self.try_wake_all();
        (input, woken)
    }

    /// Decides a write, given how many segments wait to be sent and the
    /// send window; parks `waker` while the window is full.
    pub fn poll_send(&mut self, waker: W, waitsnd: u32, sndwnd: i32) -> (r: Poll<
        Result<(), IoErrorKind>,
    >)
        ensures
            (final(self)@, r) == send_poll_step(old(self)@, waker, waitsnd, sndwnd),
    {
        if self.closed() {
            return Poll::Ready(Err(IoErrorKind::BrokenPipe));
        }
        if self.0.send_closed {
            Poll::Ready(Err(IoErrorKind::BrokenPipe))
        } else if waitsnd >= sndwnd as u32 {
            self.0.send_waker = Some(waker);
            Poll::Pending
        } else {
            Poll::Ready(Ok(()))
        }
    }

    /// Decides a read at `now`, given the size of the next message waiting
    /// (negative for none); parks `waker` while there is none. Returns the
    /// decision and the parked writer to wake.
    pub fn poll_recv(&mut self, waker: W, peeksize: i32, now: u32) -> (r: (
        Poll<Result<(), IoErrorKind>>,
        Option<W>,
    ))
        ensures
            (final(self)@, r.0, r.1) == recv_poll_step(old(self)@, waker, peeksize, now),
    {
        if self.closed() {
            return (Poll::Ready(Err(IoErrorKind::BrokenPipe)), None);
        }
        let poll = if self.0.recv_closed {
            Poll::Ready(Err(IoErrorKind::UnexpectedEof))
        } else if peeksize < 0 {
            self.0.recv_waker = Some(waker);
            Poll::Pending
        } else {
            self.0.last_recv = now;
            Poll::Ready(Ok(()))
        };
        let w = self.try_wake_send();
        (poll, w)
    }

    /// Decides a flush, given how many segments wait to be sent; parks
    /// `waker` while any do.
    pub fn poll_flush(&mut self, waker: W, waitsnd: u32) -> (r: Poll<Result<(), IoErrorKind>>)
        ensures
            (final(self)@, r) == flush_poll_step(old(self)@, waker, waitsnd),
    {
        if self.closed() {
            return Poll::Ready(Err(IoErrorKind::BrokenPipe));
        }
        if waitsnd > 0 {
            self.0.flush_waker = Some(waker);
            Poll::Pending
        } else {
            Poll::Ready(Ok(()))
        }
    }

    /// Decides whether the session may close at `now`, given how many
    /// segments wait to be sent; parks `waker` until it may.
    pub fn poll_close(&mut self, waker: W, waitsnd: u32, now: u32) -> (r: Poll<
        Result<(), IoErrorKind>,
    >)
        ensures
            (final(self)@, r) == close_poll_step(old(self)@, waker, waitsnd, now),
    {
        if self.closed() {
            return Poll::Ready(Ok(()));
        }
        if waitsnd > 0 || now < self.0.last_send || now - self.0.last_send < self.0.close_delay {
            self.0.close_waker = Some(waker);
            Poll::Pending
        } else {
            Poll::Ready(Ok(()))
        }
    }

    /// One round of the poller over the session at `now`, given the
    /// engine's check at `now`.
    pub fn poll_session(&mut self, now: u32, check_now: u32) -> (r: SessionStep<W>)
        ensures
            (final(self)@, r@) == session_step(old(self)@, now, check_now),
    {
        if self.closed() {
            return SessionStep::Retire(Vec::new());
        }
        if !self.updatable(check_now) {
            return SessionStep::Keep;
        }
        let (res, w) = self.update(now);
        match res {
            Err(_) => {
                let mut woken: Vec<W> = Vec::new();
                push_opt(&mut woken, w);
                let mut rest = self.force_close();
                woken.append(&mut rest);
                SessionStep::Retire(woken)
            },
            Ok(()) => {
                let woken = self.try_wake_all();
                SessionStep::Update(woken)
            },
        }
    }
}

/// The channel through which new sessions reach the poller. The poller
/// takes them out in the order they were registered.
pub struct KcpPoller<S, W>(Queue<S, W>);

impl<S, W> View for KcpPoller<S, W> {
    type V = QueueState<S, W>;

    closed spec fn view(&self) -> QueueState<S, W> {
        self.0@
    }
}

impl<S, W> KcpPoller<S, W> {
    /// An open channel; a registration waits while one session is pending.
    pub fn new() -> (p: KcpPoller<S, W>)
        ensures
            p@ == spec_new_state::<S, W>(10),
    {
        KcpPoller(Queue::new(10))
    }

    /// Closes the channel. Returns the parked poller and the parked
    /// registration, to wake.
    pub fn stop(&mut self) -> (r: (Option<W>, Option<W>))
        ensures
            (final(self)@, r) == close_step(old(self)@),
    {
        self.0.close()
    }

    /// Polls to register the session in `kcp`. Returns the outcome and the
    /// parked poller to wake.
    pub fn poll_register(&mut self, waker: W, kcp: &mut Option<S>) -> (r: (
        Poll<Result<(), IoErrorKind>>,
        Option<W>,
    ))
        requires
            !old(self)@.closed && !spec_filled(old(self)@) ==> old(kcp).is_some(),
        ensures
            (final(self)@, r.0, r.1) == send_step(old(self)@, waker, old(kcp).unwrap()),
            r.0 == Poll::<Result<(), IoErrorKind>>::Ready(Ok(())) ==> final(kcp).is_none(),
            r.0 != Poll::<Result<(), IoErrorKind>>::Ready(Ok(())) ==> *final(kcp) == *old(kcp),
    {
        self.0.poll_send(waker, kcp)
    }

    /// Polls for the next registered session. Returns the outcome and the
    /// parked registration to wake.
    pub fn poll_next(&mut self, waker: W) -> (r: (Poll<Result<S, IoErrorKind>>, Option<W>))
        ensures
            (final(self)@, r.0, r.1) == read_step(old(self)@, waker),
    {
        self.0.poll_recv(waker)
    }
}

/// What the update task does next.
pub enum LoopStep {
    /// Stop, with this result.
    Finish(Result<(), KcpError>),
    /// Wait again, polling the poller or not as the task's state says.
    Continue,
}

/// The update task: whether it drives the poller, and how it answers what
/// it is woken by. It starts paused, until told to resume.
pub struct UpdateTask {
    paused: bool,
}

impl UpdateTask {
    /// Whether the task leaves the poller alone.
    pub closed spec fn is_paused(self) -> bool {
        self.paused
    }

    /// A task that does not drive the poller until told to resume.
    pub fn new() -> (r: UpdateTask)
        ensures
            r.is_paused(),
    {
        UpdateTask { paused: true }
    }

    /// Whether the task drives the poller now.
    pub fn polls_poller(&self) -> (r: bool)
        ensures
            r == !self.is_paused(),
    {
        !self.paused
    }

    /// The decision on what the task was woken by: the end of the poller,
    /// or a signal (or the loss of its signal channel).
    pub fn step(&mut self, event: Sig<Result<(), KcpError>, Result<KcpUpdateSig, KcpError>>) -> (r: LoopStep)
        ensures
            match event {
                Sig::Signal(Ok(KcpUpdateSig::Pause)) => final(self).is_paused(),
                Sig::Signal(Ok(KcpUpdateSig::Resume)) => !final(self).is_paused(),
                _ => final(self).is_paused() == old(self).is_paused(),
            },
            match event {
                Sig::Data(res) => r == LoopStep::Finish(res),
                Sig::Signal(Err(e)) => r == LoopStep::Finish(Err(e)),
                Sig::Signal(Ok(KcpUpdateSig::Pause)) => r == LoopStep::Continue,
                Sig::Signal(Ok(KcpUpdateSig::Resume)) => r == LoopStep::Continue,
                Sig::Signal(Ok(KcpUpdateSig::Stop)) => r == LoopStep::Finish(Ok(())),
            },
    {
        match event {
            Sig::Data(res) => LoopStep::Finish(res),
            Sig::Signal(Err(e)) => LoopStep::Finish(Err(e)),
            Sig::Signal(Ok(KcpUpdateSig::Pause)) => {
                self.paused = true;
                LoopStep::Continue
            },
            Sig::Signal(Ok(KcpUpdateSig::Resume)) => {
                self.paused = false;
                LoopStep::Continue
            },
            Sig::Signal(Ok(KcpUpdateSig::Stop)) => LoopStep::Finish(Ok(())),
        }
    }
}

/// What the poller does when it is woken.
pub enum PollerStep {
    /// The registration channel failed: stop with this error.
    Fail(IoErrorKind),
    /// A session was registered: add it to the sessions polled.
    Admit,
    /// No session to poll and no sleep running: wait for a registration.
    Wait,
    /// Run a round over the sessions, then sleep for the delay it gives.
    Round,
    /// A sleep is running: poll it, and wake up when it ends.
    PollSleep,
}

/// The poller's decision, given the outcome of polling its registration
/// channel, whether it polls any session, and whether a sleep is running.
pub fn poller_step(next: Poll<Result<(), IoErrorKind>>, has_sessions: bool, sleeping: bool) -> (r: PollerStep)
    ensures
        match next {
            Poll::Ready(Err(e)) => r == PollerStep::Fail(e),
            Poll::Ready(Ok(())) => r == PollerStep::Admit,
            Poll::Pending => r == if sleeping {
                PollerStep::PollSleep
            } else if !has_sessions {
                PollerStep::Wait
            } else {
                PollerStep::Round
            },
        },
{
    match next {
        Poll::Ready(Err(e)) => PollerStep::Fail(e),
        Poll::Ready(Ok(())) => PollerStep::Admit,
        Poll::Pending => {
            if sleeping {
                PollerStep::PollSleep
            } else if !has_sessions {
                PollerStep::Wait
            } else {
                PollerStep::Round
            }
        },
    }
}

/// The poller's next sleep after a session whose engine asks to be checked
/// at `check`, given the sleep so far (0 for none yet).
pub open spec fn spec_merge_next_check(nex_chk: u32, check: u32, now: u32) -> u32 {
    let d = (check - now) as u32;
    if nex_chk == 0 {
        d
    } else if d < nex_chk {
        d
    } else {
        nex_chk
    }
}

/// Folds one session's delay into the poller's next sleep.
pub fn merge_next_check(nex_chk: u32, check: u32, now: u32) -> (r: u32)
    requires
        check >= now,
    ensures
        r == spec_merge_next_check(nex_chk, check, now),
{
    let d = check - now;
    if nex_chk == 0 {
        d
    } else if d < nex_chk {
        d
    } else {
        nex_chk
    }
}

/// A closed session stays closed whatever happens to it, and refuses
/// everything: updates fail with `Closed`, reads, writes and flushes with
/// `BrokenPipe`, a close succeeds at once, and the poller retires it
/// without waking anyone.
pub proof fn lemma_closed_session_is_final<W>(
    s: KcpImpl<W>,
    w: W,
    now: u32,
    check_now: u32,
    waitsnd: u32,
    sndwnd: i32,
    peeksize: i32,
    input: Result<(), KcpError>,
)
    requires
        spec_closed(s),
    ensures
        update_step(s, now) == (s, Err::<(), KcpError>(KcpError::Closed), None::<W>),
        send_poll_step(s, w, waitsnd, sndwnd) == (s, Poll::<Result<(), IoErrorKind>>::Ready(Err(IoErrorKind::BrokenPipe))),
        recv_poll_step(s, w, peeksize, now) == (s, Poll::<Result<(), IoErrorKind>>::Ready(Err(IoErrorKind::BrokenPipe)), None::<W>),
        flush_poll_step(s, w, waitsnd) == (s, Poll::<Result<(), IoErrorKind>>::Ready(Err(IoErrorKind::BrokenPipe))),
        close_poll_step(s, w, waitsnd, now) == (s, Poll::<Result<(), IoErrorKind>>::Ready(Ok(()))),
        session_step(s, now, check_now) == (s, SessionOutcome::<W>::Retire(Seq::empty())),
        force_close_step(s) == (s, Seq::<W>::empty()),
        spec_closed(input_step(s, input, now).0),
{
}

/// No operation reopens a session: every step from a closed state ends in
/// a closed state.
pub proof fn lemma_closed_is_monotone<W>(
    s: KcpImpl<W>,
    w: W,
    now: u32,
    check_now: u32,
    waitsnd: u32,
    sndwnd: i32,
    peeksize: i32,
    input: Result<(), KcpError>,
)
    ensures
        spec_closed(s) ==> spec_closed(update_step(s, now).0),
        spec_closed(s) ==> spec_closed(input_step(s, input, now).0),
        spec_closed(s) ==> spec_closed(send_poll_step(s, w, waitsnd, sndwnd).0),
        spec_closed(s) ==> spec_closed(recv_poll_step(s, w, peeksize, now).0),
        spec_closed(s) ==> spec_closed(flush_poll_step(s, w, waitsnd).0),
        spec_closed(s) ==> spec_closed(close_poll_step(s, w, waitsnd, now).0),
        spec_closed(s) ==> spec_closed(session_step(s, now, check_now).0),
        spec_closed(force_close_step(s).0),
{
}

/// Closing by force leaves a closed session with no task parked; closing
/// again changes nothing and wakes no one.
pub proof fn lemma_force_close_idempotent<W>(s: KcpImpl<W>)
    ensures
        spec_closed(force_close_step(s).0),
        !spec_closed(s) ==> parked(force_close_step(s).0).len() == 0,
        force_close_step(force_close_step(s).0) == (force_close_step(s).0, Seq::<W>::empty()),
{
    if !spec_closed(s) {
        let t = force_close_step(s).0;
        assert(parked(t) =~= Seq::<W>::empty());
    }
}

/// An update before every deadline of the tasks parked changes nothing and
/// tells the caller to update the engine.
pub proof fn lemma_update_within_deadlines<W>(s: KcpImpl<W>, now: u32)
    requires
        !spec_closed(s),
        now >= s.last_send,
        s.close_waker.is_some() ==> now - s.last_send <= s.close_delay,
        s.recv_waker.is_some() ==> now - s.last_send <= s.recv_timeout,
        s.send_waker.is_some() || s.flush_waker.is_some() ==> now - s.last_send <= s.send_timeout,
    ensures
        update_step(s, now) == (s, Ok::<(), KcpError>(()), None::<W>),
{
}

/// A session retired by the poller is closed, and keeps no task parked
/// unless its update closed it (which releases only the closing task); a
/// session the poller updates keeps no task parked.
pub proof fn lemma_session_step_releases<W>(s: KcpImpl<W>, now: u32, check_now: u32)
    ensures
        session_step(s, now, check_now).1 is Retire ==> spec_closed(
            session_step(s, now, check_now).0,
        ),
        !spec_closed(s) && !spec_closed(update_step(s, now).0) && session_step(s, now, check_now).1 is Retire ==> parked(
            session_step(s, now, check_now).0,
        ).len() == 0,
        session_step(s, now, check_now).1 is Update ==> parked(
            session_step(s, now, check_now).0,
        ).len() == 0,
{
    let u = update_step(s, now);
    if !spec_closed(s) && spec_updatable(s, check_now) {
        if u.1 is Err {
            lemma_force_close_idempotent(u.0);
        } else {
            assert(parked(unparked(u.0)) =~= Seq::<W>::empty());
        }
    }
}

/// No wake-up is lost on a session: a reader parked for want of a message
/// is released by the next packet the engine is handed, whatever the
/// engine says of it, and by closing the session by force; the same holds
/// of a writer parked on a full window.
pub proof fn lemma_parked_session_tasks_are_woken<W>(
    s: KcpImpl<W>,
    w: W,
    now: u32,
    input: Result<(), KcpError>,
    waitsnd: u32,
    sndwnd: i32,
)
    requires
        !spec_closed(s),
        !s.recv_closed,
        !s.send_closed,
    ensures
        input_step(recv_poll_step(s, w, -1i32, now).0, input, now).1.contains(w),
        force_close_step(recv_poll_step(s, w, -1i32, now).0).1.contains(w),
        waitsnd >= sndwnd as u32 ==> input_step(send_poll_step(s, w, waitsnd, sndwnd).0, input, now).1.contains(w),
        waitsnd >= sndwnd as u32 ==> force_close_step(send_poll_step(s, w, waitsnd, sndwnd).0).1.contains(w),
{
    let r = recv_poll_step(s, w, -1i32, now).0;
    assert(r.recv_waker == Some(w));
    let r1 = input_step(r, input, now);
    let ri = match input {
        Ok(()) => KcpImpl { last_send: now, ..r },
        Err(_) => KcpImpl { recv_closed: true, ..r },
    };
    assert(parked(ri)[opt_seq(ri.send_waker).len() as int] == w);
    assert(parked(r)[opt_seq(r.send_waker).len() as int] == w);
    if waitsnd >= sndwnd as u32 {
        let t = send_poll_step(s, w, waitsnd, sndwnd).0;
        let ti = match input {
            Ok(()) => KcpImpl { last_send: now, ..t },
            Err(_) => KcpImpl { recv_closed: true, ..t },
        };
        assert(parked(ti)[0] == w);
        assert(parked(t)[0] == w);
    }
}

/// A poller round over an open session whose engine's check is due
/// updates the engine and releases every parked task, whatever tasks are
/// parked, unless a parked task outlived its deadline; a round before the
/// check is due leaves the session as it is.
pub proof fn lemma_round_updates_due_session<W>(s: KcpImpl<W>, now: u32, check_now: u32)
    requires
        !(s.recv_closed && s.send_closed),
    ensures
        check_now < s.next_update ==> session_step(s, now, check_now) == (s, SessionOutcome::<W>::Keep),
        s.next_update <= check_now && (now < s.last_send || (
            (s.close_waker.is_some() ==> now - s.last_send <= s.close_delay)
            && (s.recv_waker.is_some() ==> now - s.last_send <= s.recv_timeout)
            && (s.send_waker.is_some() ==> now - s.last_send <= s.send_timeout)
            && (s.flush_waker.is_some() ==> now - s.last_send <= s.send_timeout)))
            ==> session_step(s, now, check_now) == (
                KcpImpl::<W> { recv_waker: None, send_waker: None, close_waker: None, flush_waker: None, ..s },
                SessionOutcome::Update(
                    opt_seq(s.send_waker) + opt_seq(s.recv_waker) + opt_seq(s.flush_waker) + opt_seq(
                        s.close_waker,
                    ),
                ),
            ),
{
}

/// A new session starts open, with nothing parked, renewed at `now`, and
/// with the configured deadlines: reads and writes time out after the
/// configured timeout, a close after the configured close delay.
pub proof fn lemma_wrap_uses_config<W>(config: KcpConfig, now: u32)
    ensures
        spec_wrap::<W>(config, now).recv_timeout == config.timeout,
        spec_wrap::<W>(config, now).send_timeout == config.timeout,
        spec_wrap::<W>(config, now).close_delay == config.close_delay,
        spec_wrap::<W>(config, now).last_send == now,
        spec_wrap::<W>(config, now).last_recv == now,
        spec_wrap::<W>(config, now).next_update == now,
        !spec_wrap::<W>(config, now).recv_closed,
        !spec_wrap::<W>(config, now).send_closed,
        spec_wrap::<W>(config, now).recv_waker.is_none(),
        spec_wrap::<W>(config, now).send_waker.is_none(),
        spec_wrap::<W>(config, now).close_waker.is_none(),
        spec_wrap::<W>(config, now).flush_waker.is_none(),
{
}

/// A writer parked on a full window of a new session is not timed out
/// before the configured timeout has passed: until then the update
/// succeeds and leaves the session as it is; one millisecond later it
/// fails with `WriteTimeout` and releases the writer.
pub proof fn lemma_new_session_write_deadline<W>(config: KcpConfig, t0: u32, w: W, waitsnd: u32, sndwnd: i32, now: u32)
    requires
        waitsnd >= sndwnd as u32,
        now >= t0,
    ensures
        ({
            let s = send_poll_step(spec_wrap::<W>(config, t0), w, waitsnd, sndwnd).0;
            &&& now - t0 <= config.timeout ==> update_step(s, now) == (s, Ok::<(), KcpError>(()), None::<W>)
            &&& now - t0 > config.timeout ==> update_step(s, now).1 == Err::<(), KcpError>(
                KcpError::WriteTimeout((now - t0) as u32),
            ) && update_step(s, now).2 == Some(w)
        }),
{
}

/// A write goes to the engine whenever the send window has room and the
/// writing direction is open, whatever other tasks are parked; it waits,
/// parking only the writer, exactly when the window is full; it fails with
/// `BrokenPipe` exactly when the writing direction is closed.
pub proof fn lemma_write_decision<W>(s: KcpImpl<W>, w: W, waitsnd: u32, sndwnd: i32)
    ensures
        s.send_closed ==> send_poll_step(s, w, waitsnd, sndwnd) == (
            s,
            Poll::<Result<(), IoErrorKind>>::Ready(Err(IoErrorKind::BrokenPipe)),
        ),
        !s.send_closed && waitsnd < sndwnd as u32 ==> send_poll_step(s, w, waitsnd, sndwnd) == (
            s,
            Poll::<Result<(), IoErrorKind>>::Ready(Ok(())),
        ),
        !s.send_closed && waitsnd >= sndwnd as u32 ==> send_poll_step(s, w, waitsnd, sndwnd) == (
            KcpImpl { send_waker: Some(w), ..s },
            Poll::<Result<(), IoErrorKind>>::Pending,
        ),
{
}

/// An open session closes once nothing waits to be sent and `close_delay`
/// has passed since the last packet arrived, and not before; so a packet
/// accepted at `t` keeps any close in `[t, t + close_delay)` waiting.
pub proof fn lemma_close_waits_for_quiet<W>(s: KcpImpl<W>, w: W, waitsnd: u32, now: u32, t: u32)
    requires
        !(s.recv_closed && s.send_closed),
    ensures
        waitsnd > 0 ==> close_poll_step(s, w, waitsnd, now).1 is Pending,
        waitsnd == 0 && now < s.last_send + s.close_delay ==> close_poll_step(s, w, 0, now) == (
            KcpImpl { close_waker: Some(w), ..s },
            Poll::<Result<(), IoErrorKind>>::Pending,
        ),
        waitsnd == 0 && now >= s.last_send + s.close_delay ==> close_poll_step(s, w, 0, now) == (
            s,
            Poll::<Result<(), IoErrorKind>>::Ready(Ok(())),
        ),
        !s.recv_closed && t <= now < t + s.close_delay ==> close_poll_step(
            input_step(s, Ok(()), t).0,
            w,
            0,
            now,
        ).1 is Pending,
{
}

/// The poller's next sleep over sessions whose engines ask for the delays
/// in `ds`, in order.
pub open spec fn fold_next_check(ds: Seq<u32>) -> u32
    decreases ds.len(),
{
    if ds.len() == 0 {
        0
    } else {
        spec_merge_next_check(fold_next_check(ds.drop_last()), ds.last(), 0)
    }
}

/// The delays that sessions ask for, from the times of their rounds and
/// the times at which their engines want to be checked.
pub open spec fn round_delays(rounds: Seq<(u32, u32)>) -> Seq<u32> {
    rounds.map_values(|r: (u32, u32)| (r.1 - r.0) as u32)
}

/// The poller's next sleep after a round over sessions, given for each
/// kept session the time of its round and the time at which its engine
/// wants to be checked, in order.
pub fn next_check_delay(rounds: &Vec<(u32, u32)>) -> (r: u32)
    requires
        forall|i: int| 0 <= i < rounds.len() ==> rounds[i].1 >= rounds[i].0,
    ensures
        r == fold_next_check(round_delays(rounds@)),
{
    let mut nex_chk: u32 = 0;
    let mut i: usize = 0;
    while i < rounds.len()
        invariant
            i <= rounds.len(),
            forall|j: int| 0 <= j < rounds.len() ==> rounds[j].1 >= rounds[j].0,
            nex_chk == fold_next_check(round_delays(rounds@).take(i as int)),
        decreases rounds.len() - i,
    {
        let (now, check) = rounds[i];
        let ghost ds = round_delays(rounds@);
        proof {
            assert(ds.take(i + 1).drop_last() =~= ds.take(i as int));
            assert(ds.take(i + 1).last() == ds[i as int]);
            assert(ds[i as int] == (check - now) as u32);
        }
        nex_chk = merge_next_check(nex_chk, check, now);
        i = i + 1;
    }
    proof {
        assert(round_delays(rounds@).take(rounds.len() as int) =~= round_delays(rounds@));
    }
    nex_chk
}

/// When no session asks to be checked at once, the poller sleeps for the
/// smallest delay that a session asks for.
pub proof fn lemma_next_check_is_min(ds: Seq<u32>)
    requires
        forall|i: int| 0 <= i < ds.len() ==> ds[i] > 0,
    ensures
        ds.len() > 0 ==> exists|i: int| 0 <= i < ds.len() && fold_next_check(ds) == ds[i],
        forall|i: int| 0 <= i < ds.len() ==> fold_next_check(ds) <= ds[i],
        ds.len() == 0 ==> fold_next_check(ds) == 0,
        ds.len() > 0 ==> fold_next_check(ds) > 0,
    decreases ds.len(),
{
    if ds.len() > 0 {
        let p = ds.drop_last();
        assert forall|i: int| 0 <= i < p.len() implies p[i] > 0 by {
            assert(p[i] == ds[i]);
        }
        lemma_next_check_is_min(p);
        if p.len() > 0 {
            let j = choose|j: int| 0 <= j < p.len() && fold_next_check(p) == p[j];
            assert(ds[j] == p[j]);
        }
        assert(ds[ds.len() - 1] == ds.last());
        assert forall|i: int| 0 <= i < ds.len() implies fold_next_check(ds) <= ds[i] by {
            if i < ds.len() - 1 {
                assert(ds[i] == p[i]);
            }
        }
    }
}

} // verus!
