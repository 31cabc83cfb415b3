use kcp_rust::{after_input, closer_step, datagram_step, AfterInput, CloseAction, CloseEvent, Datagram, SessionTable};
use kcp_rust::{
    fast_mode, merge_next_check, next_check_delay, poller_step, IoErrorKind, KcpError, KcpUpdateSig, LoopStep, Poll,
    PollerStep, SafeKcp, SessionStep, Sig, UpdateTask,
};

fn session(now: u32) -> SafeKcp<u32> {
    SafeKcp::wrap(&fast_mode(), now)
}

#[test]
fn new_session_is_open_and_updatable_at_check() {
    let s = session(1000);
    assert!(!s.closed());
    assert!(s.updatable(1000));
    assert!(!s.updatable(999));
}

#[test]
fn send_waits_while_window_full() {
    let mut s = session(0);
    assert!(matches!(s.poll_send(1, 2048, 2048), Poll::Pending));
    assert!(matches!(s.poll_send(1, 10, 2048), Poll::Ready(Ok(()))));
    // A negative window reads as a huge one.
    assert!(matches!(s.poll_send(1, 10, -1), Poll::Ready(Ok(()))));
    assert_eq!(s.try_wake_send(), Some(1));
    assert_eq!(s.try_wake_send(), None);
}

#[test]
fn recv_waits_for_a_message_and_wakes_writer() {
    let mut s = session(0);
    assert!(matches!(s.poll_send(7, 5000, 2048), Poll::Pending));
    let (p, woken) = s.poll_recv(8, -1, 10);
    assert!(matches!(p, Poll::Pending));
    assert_eq!(woken, Some(7));
    let (p, woken) = s.poll_recv(8, 11, 10);
    assert!(matches!(p, Poll::Ready(Ok(()))));
    assert_eq!(woken, None);
    assert_eq!(s.try_wake_recv(), Some(8));
}

#[test]
fn flush_waits_for_pending_segments() {
    let mut s = session(0);
    assert!(matches!(s.poll_flush(3, 1), Poll::Pending));
    assert!(matches!(s.poll_flush(3, 0), Poll::Ready(Ok(()))));
    assert_eq!(s.try_wake_flush(), Some(3));
}

#[test]
fn close_waits_for_close_delay() {
    let mut s = session(1000);
    // fast mode: close_delay 10000
    assert!(matches!(s.poll_close(4, 0, 5000), Poll::Pending));
    assert!(matches!(s.poll_close(4, 1, 20000), Poll::Pending));
    assert!(matches!(s.poll_close(4, 0, 500), Poll::Pending));
    assert!(matches!(s.poll_close(4, 0, 11000), Poll::Ready(Ok(()))));
    assert_eq!(s.try_wake_close(), Some(4));
}

#[test]
fn update_times_out_parked_reader() {
    let mut s = session(0);
    let (p, _) = s.poll_recv(5, -1, 0);
    assert!(matches!(p, Poll::Pending));
    let (r, w) = s.update(15000);
    assert!(r.is_ok());
    assert_eq!(w, None);
    let (r, w) = s.update(15001);
    assert!(matches!(r, Err(KcpError::ReadTimeout(15001))));
    assert_eq!(w, Some(5));
    let (p, _) = s.poll_recv(6, 10, 15002);
    assert!(matches!(p, Poll::Ready(Err(IoErrorKind::UnexpectedEof))));
}

#[test]
fn update_times_out_parked_writer_and_flusher() {
    let mut s = session(0);
    assert!(matches!(s.poll_send(1, 9999, 1), Poll::Pending));
    let (r, w) = s.update(15001);
    assert!(matches!(r, Err(KcpError::WriteTimeout(15001))));
    assert_eq!(w, Some(1));

    let mut t = session(0);
    assert!(matches!(t.poll_flush(2, 1), Poll::Pending));
    let (r, w) = t.update(20000);
    assert!(matches!(r, Err(KcpError::WriteTimeout(20000))));
    assert_eq!(w, Some(2));
}

#[test]
fn update_closes_after_close_delay() {
    let mut s = session(0);
    assert!(matches!(s.poll_close(9, 0, 10), Poll::Pending));
    let (r, w) = s.update(10001);
    assert!(matches!(r, Err(KcpError::Closed)));
    assert_eq!(w, Some(9));
    assert!(s.closed());
    let (r, w) = s.update(10002);
    assert!(matches!(r, Err(KcpError::Closed)));
    assert_eq!(w, None);
}

#[test]
fn update_before_last_packet_is_ok() {
    let mut s = session(100);
    let (p, _) = s.poll_recv(5, -1, 0);
    assert!(matches!(p, Poll::Pending));
    let (r, w) = s.update(50);
    assert!(r.is_ok());
    assert_eq!(w, None);
}

#[test]
fn input_renews_or_closes_and_wakes_all() {
    let mut s = session(0);
    assert!(matches!(s.poll_send(1, 9999, 1), Poll::Pending));
    assert!(matches!(s.poll_flush(3, 1), Poll::Pending));
    let (r, woken) = s.poll_input(Ok(()), 14000);
    assert!(r.is_ok());
    assert_eq!(woken, vec![1, 3]);
    // The packet renewed the session: no timeout yet at 15001.
    assert!(matches!(s.poll_send(1, 9999, 1), Poll::Pending));
    assert!(s.update(15001).0.is_ok());

    let (r, woken) = s.poll_input(Err(KcpError::Closed), 14000);
    assert!(matches!(r, Err(KcpError::Closed)));
    assert_eq!(woken, vec![1]);
    let (p, _) = s.poll_recv(2, 10, 14001);
    assert!(matches!(p, Poll::Ready(Err(IoErrorKind::UnexpectedEof))));
}

#[test]
fn force_close_wakes_everyone_once() {
    let mut s = session(0);
    assert!(matches!(s.poll_send(1, 9999, 1), Poll::Pending));
    let _ = s.poll_recv(2, -1, 0);
    assert!(matches!(s.poll_flush(3, 1), Poll::Pending));
    assert!(matches!(s.poll_close(4, 1, 0), Poll::Pending));
    // The reader's poll released the writer already.
    assert_eq!(s.force_close(), vec![2, 3, 4]);
    assert!(s.closed());
    assert_eq!(s.force_close(), Vec::<u32>::new());
    assert!(matches!(s.poll_send(1, 0, 1), Poll::Ready(Err(IoErrorKind::BrokenPipe))));
    assert!(matches!(s.poll_recv(1, 0, 1).0, Poll::Ready(Err(IoErrorKind::BrokenPipe))));
    assert!(matches!(s.poll_flush(1, 0), Poll::Ready(Err(IoErrorKind::BrokenPipe))));
    assert!(matches!(s.poll_close(1, 5, 0), Poll::Ready(Ok(()))));
}

#[test]
fn poller_round() {
    let mut s = session(100);
    assert!(matches!(s.poll_session(110, 50), SessionStep::Keep));
    let _ = s.poll_recv(2, -1, 100);
    match s.poll_session(110, 110) {
        SessionStep::Update(w) => assert_eq!(w, vec![2]),
        _ => panic!("expected an update"),
    }
    let _ = s.poll_recv(2, -1, 110);
    match s.poll_session(20000, 20000) {
        SessionStep::Retire(w) => assert_eq!(w, vec![2]),
        _ => panic!("expected a retirement"),
    }
    assert!(s.closed());
    assert!(matches!(s.poll_session(20001, 20001), SessionStep::Retire(w) if w.is_empty()));
}

#[test]
fn next_check_merging() {
    assert_eq!(merge_next_check(0, 110, 100), 10);
    assert_eq!(merge_next_check(10, 105, 100), 5);
    assert_eq!(merge_next_check(5, 130, 100), 5);
    // A session that asks for an immediate check restarts the minimum.
    assert_eq!(merge_next_check(0, 100, 100), 0);
    assert_eq!(merge_next_check(0, 140, 100), 40);
}

#[test]
fn update_task_decisions() {
    let mut t = UpdateTask::new();
    assert!(!t.polls_poller());
    assert!(matches!(t.step(Sig::Signal(Ok(KcpUpdateSig::Resume))), LoopStep::Continue));
    assert!(t.polls_poller());
    assert!(matches!(t.step(Sig::Signal(Ok(KcpUpdateSig::Pause))), LoopStep::Continue));
    assert!(!t.polls_poller());
    assert!(matches!(t.step(Sig::Data(Ok(()))), LoopStep::Finish(Ok(()))));
    assert!(matches!(
        t.step(Sig::Data(Err(KcpError::Closed))),
        LoopStep::Finish(Err(KcpError::Closed))
    ));
    assert!(matches!(t.step(Sig::Signal(Ok(KcpUpdateSig::Stop))), LoopStep::Finish(Ok(()))));
    assert!(matches!(
        t.step(Sig::Signal(Err(KcpError::SignalSendClosed))),
        LoopStep::Finish(Err(KcpError::SignalSendClosed))
    ));
    assert!(!t.polls_poller());
}

#[test]
fn poller_decisions() {
    assert!(matches!(
        poller_step(Poll::Ready(Err(IoErrorKind::Interrupted)), true, true),
        PollerStep::Fail(IoErrorKind::Interrupted)
    ));
    assert!(matches!(poller_step(Poll::Ready(Ok(())), false, false), PollerStep::Admit));
    assert!(matches!(poller_step(Poll::Pending, false, false), PollerStep::Wait));
    assert!(matches!(poller_step(Poll::Pending, true, false), PollerStep::Round));
    assert!(matches!(poller_step(Poll::Pending, true, true), PollerStep::PollSleep));
}

#[test]
fn poller_channel_hands_sessions_over_in_order() {
    let mut p: kcp_rust::KcpPoller<u8, u32> = kcp_rust::KcpPoller::new();
    let mut a = Some(1u8);
    assert!(matches!(p.poll_register(1, &mut a).0, Poll::Ready(Ok(()))));
    let mut b = Some(2u8);
    assert!(matches!(p.poll_register(2, &mut b).0, Poll::Pending));
    let (n, w) = p.poll_next(3);
    assert!(matches!(n, Poll::Ready(Ok(1))));
    assert_eq!(w, Some(2));
    assert!(matches!(p.poll_register(2, &mut b).0, Poll::Ready(Ok(()))));
    assert!(matches!(p.poll_next(3).0, Poll::Ready(Ok(2))));
    let _ = p.stop();
    assert!(matches!(p.poll_next(3).0, Poll::Ready(Err(IoErrorKind::Interrupted))));
}

#[test]
fn listener_session_table() {
    let mut t: kcp_rust::SessionTable<&'static str> = kcp_rust::SessionTable::new();
    assert_eq!(t.lookup(1, 7), None);
    t.manage(1, 7, "a");
    t.manage(2, 7, "b");
    assert_eq!(t.lookup(1, 7), Some(&"a"));
    assert_eq!(t.lookup(2, 7), Some(&"b"));
    t.manage(1, 7, "c");
    assert_eq!(t.lookup(1, 7), Some(&"c"));
    assert_eq!(t.remove(1, 7), Some("c"));
    assert_eq!(t.remove(1, 7), None);
    assert_eq!(t.lookup(1, 7), None);
    assert_eq!(t.lookup(2, 7), Some(&"b"));
}

#[test]
fn parked_reader_is_woken_by_any_packet() {
    let mut s = session(0);
    let _ = s.poll_recv(5, -1, 0);
    let (r, woken) = s.poll_input(Err(KcpError::Core(kcp_rust::KcpErrorKind::InputError(-1))), 1);
    assert!(r.is_err());
    assert_eq!(woken, vec![5]);

    let mut t = session(0);
    assert!(matches!(t.poll_send(6, 10, 10), Poll::Pending));
    assert_eq!(t.force_close(), vec![6]);
}

#[test]
fn listener_admission() {
    let mut t: SessionTable<&'static str> = SessionTable::new();
    // A refused first datagram: the session is closed and never kept.
    assert_eq!(after_input(&mut t, 1, 7, true, "a", Err(KcpError::Closed)), AfterInput::ForceClose);
    assert_eq!(t.lookup(1, 7), None);
    // An accepted first datagram: the session is kept and accepted.
    assert_eq!(after_input(&mut t, 1, 7, true, "a", Ok(())), AfterInput::Accept);
    assert_eq!(t.lookup(1, 7), Some(&"a"));
    // Later datagrams for it: kept, or closed when refused, table unchanged.
    assert_eq!(after_input(&mut t, 1, 7, false, "b", Ok(())), AfterInput::Keep);
    assert_eq!(after_input(&mut t, 1, 7, false, "b", Err(KcpError::Closed)), AfterInput::ForceClose);
    assert_eq!(t.lookup(1, 7), Some(&"a"));

    assert!(matches!(datagram_step::<u8>(Ok((3, 12))), Datagram::Dispatch(3, 12)));
    let e = std::io::Error::new(std::io::ErrorKind::ConnectionReset, "reset");
    assert!(matches!(datagram_step::<u8>(Err(e)), Datagram::Skip));
}

#[test]
fn closer_decisions() {
    assert!(matches!(closer_step(CloseEvent::Requested(5u32, true)), CloseAction::Watch(5)));
    assert!(matches!(closer_step(CloseEvent::Requested(5u32, false)), CloseAction::Ignore));
    assert!(matches!(closer_step(CloseEvent::Finished((1u64, 5u32))), CloseAction::Remove((1, 5))));
}

#[test]
fn next_check_over_a_round() {

    assert_eq!(next_check_delay(&vec![]), 0);
    assert_eq!(next_check_delay(&vec![(100, 140), (200, 210), (300, 330)]), 10);
    // A session asking for an immediate check restarts the minimum.
    assert_eq!(next_check_delay(&vec![(100, 105), (200, 200), (300, 340)]), 40);
}
