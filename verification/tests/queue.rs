use kcp_rust::{signal, IoErrorKind, KcpError, KcpReadSig, Poll, Queue};

#[test]
fn test() {
    // A queue of one slot: the first send goes through, the second waits
    // until the first item is received, and the items come out in order.
    let mut queue: Queue<usize, u32> = Queue::new(1);

    let mut first = Some(1usize);
    let (p, woken) = queue.poll_send(10, &mut first);
    assert!(matches!(p, Poll::Ready(Ok(()))));
    assert!(woken.is_none());
    assert!(first.is_none());

    let mut second = Some(2usize);
    let (p, _) = queue.poll_send(11, &mut second);
    assert!(matches!(p, Poll::Pending));
    assert_eq!(second, Some(2));

    let (p, woken) = queue.poll_recv(20);
    assert!(matches!(p, Poll::Ready(Ok(1))));
    assert_eq!(woken, Some(11));

    let (p, _) = queue.poll_send(11, &mut second);
    assert!(matches!(p, Poll::Ready(Ok(()))));

    let (p, _) = queue.poll_recv(20);
    assert!(matches!(p, Poll::Ready(Ok(2))));
}

#[test]
fn queue_limit_is_at_most_one() {
    let mut q: Queue<u8, u32> = Queue::new(10);
    let mut a = Some(1u8);
    assert!(matches!(q.poll_send(1, &mut a).0, Poll::Ready(Ok(()))));
    let mut b = Some(2u8);
    assert!(matches!(q.poll_send(2, &mut b).0, Poll::Pending));

    let mut z: Queue<u8, u32> = Queue::new(0);
    let mut c = Some(3u8);
    assert!(matches!(z.poll_send(3, &mut c).0, Poll::Pending));
}

#[test]
fn queue_block_send_ignores_limit_and_keeps_order() {
    let mut q: Queue<u32, u32> = Queue::new(1);
    for i in 0..5u32 {
        assert!(q.block_send(i).0.is_ok());
    }
    for i in 0..5u32 {
        assert!(matches!(q.poll_recv(7).0, Poll::Ready(Ok(x)) if x == i));
    }
    assert!(matches!(q.poll_recv(7).0, Poll::Pending));
}

#[test]
fn queue_receiver_parks_and_is_woken_by_send() {
    let mut q: Queue<u32, u32> = Queue::new(1);
    assert!(matches!(q.poll_recv(42).0, Poll::Pending));
    let (r, woken) = q.block_send(5);
    assert!(r.is_ok());
    assert_eq!(woken, Some(42));
}

#[test]
fn queue_close_refuses_and_releases() {
    let mut q: Queue<u32, u32> = Queue::new(1);
    assert!(matches!(q.poll_recv(1).0, Poll::Pending));
    let mut a = Some(9u32);
    assert!(matches!(q.poll_send(2, &mut a).0, Poll::Ready(Ok(()))));
    let mut b = Some(10u32);
    assert!(matches!(q.poll_send(3, &mut b).0, Poll::Pending));
    let (r, s) = q.close();
    assert_eq!(r, None);
    assert_eq!(s, Some(3));
    assert!(matches!(q.poll_recv(4).0, Poll::Ready(Err(IoErrorKind::Interrupted))));
    assert!(matches!(q.poll_send(5, &mut b).0, Poll::Ready(Err(IoErrorKind::Interrupted))));
    assert_eq!(b, Some(10));
    assert_eq!(q.block_send(11).0, Err(IoErrorKind::Interrupted));
}

#[test]
fn signal_delivers_and_reports_closed_ends() {
    let mut s = signal::<KcpReadSig, u32>(1);
    let mut d = Some(KcpReadSig::Resume);
    assert!(matches!(s.poll_send(1, &mut d).0, Poll::Ready(Ok(()))));
    assert!(matches!(s.poll_recv(2).0, Poll::Ready(Ok(KcpReadSig::Resume))));

    let _ = s.close_send();
    assert!(matches!(s.poll_recv(2).0, Poll::Ready(Err(KcpError::SignalSendClosed))));
    let mut e = Some(KcpReadSig::Quit);
    assert!(matches!(s.poll_send(1, &mut e).0, Poll::Ready(Err(KcpError::SignalReadClosed))));
}

#[test]
fn signal_closed_reader_is_reported_to_sender() {
    let mut s = signal::<u8, u32>(1);
    let _ = s.close_read();
    let mut d = Some(1u8);
    assert!(matches!(s.poll_send(1, &mut d).0, Poll::Ready(Err(KcpError::SignalReadClosed))));
}

#[test]
fn signal_queue_closed_under_receiver() {
    // The sender's end is gone only through its queue: the receiver sees
    // the closed queue and reports it as `SignalReadClosed`.
    let mut s = signal::<u8, u32>(1);
    let _ = s.close_read();
    assert!(matches!(s.poll_recv(1).0, Poll::Ready(Err(KcpError::SignalReadClosed))));
    assert!(matches!(s.poll_recv(1).0, Poll::Ready(Err(KcpError::SignalSendClosed))));
}

#[test]
fn queue_keeps_order_over_mixed_sends() {
    let mut q: Queue<u32, u32> = Queue::new(1);
    let mut got = Vec::new();
    let mut a = Some(1u32);
    assert!(matches!(q.poll_send(1, &mut a).0, Poll::Ready(Ok(()))));
    assert!(q.block_send(2).0.is_ok());
    let mut b = Some(3u32);
    assert!(matches!(q.poll_send(1, &mut b).0, Poll::Pending));
    if let Poll::Ready(Ok(x)) = q.poll_recv(9).0 {
        got.push(x);
    }
    assert!(q.block_send(4).0.is_ok());
    while let Poll::Ready(Ok(x)) = q.poll_recv(9).0 {
        got.push(x);
    }
    assert!(matches!(q.poll_send(1, &mut b).0, Poll::Ready(Ok(()))));
    if let Poll::Ready(Ok(x)) = q.poll_recv(9).0 {
        got.push(x);
    }
    assert_eq!(got, vec![1, 2, 4, 3]);
}
