use kcp_rust::{
    fast_mode, get_conv, input_result, normal_mode, recv_result, ReaderTask, send_len,
    send_result, Config, IoErrorKind, IoMessage, KcpConv, KcpError, KcpErrorKind, KcpReadSig,
    ReadStep, RemoteConv, ConvAllocator, Sig, TaskKind, IKCP_WND_RCV,
};
use std::collections::HashMap;

#[test]
fn default_config() {
    let c = Config::default();
    assert_eq!(c.rcvbuf_size, 1500);
    assert_eq!(c.quebuf_size, 1024);
    assert_eq!(c.kcp_config, fast_mode());
    let f = fast_mode();
    assert!(f.nc && f.nodelay);
    assert_eq!((f.mtu, f.timeout, f.interval, f.resend), (1400, 15000, 5, 2));
    assert_eq!((f.rcvwnd_size, f.sndwnd_size, f.close_delay), (2048, 2048, 10000));
    let n = normal_mode();
    assert!(!n.nc && !n.nodelay);
    assert_eq!((n.mtu, n.timeout, n.interval, n.resend), (1400, 15000, 40, 0));
    assert_eq!((n.rcvwnd_size, n.sndwnd_size, n.close_delay), (1024, 512, 15000));
    assert_eq!(TaskKind::Reader, TaskKind::Reader);
}

#[test]
fn receive_buffer_is_at_least_one_mtu() {
    let mut c = Config::default();
    c.rcvbuf_size = 100;
    assert_eq!(c.with_min_rcvbuf().rcvbuf_size, 1400);
    c.rcvbuf_size = 4000;
    assert_eq!(c.with_min_rcvbuf().rcvbuf_size, 4000);
}

#[test]
fn send_len_cuts_to_the_window() {
    assert_eq!(send_len(0, 1376), 0);
    assert_eq!(send_len(1376, 1376), 1376);
    assert_eq!(send_len(1376 * 127, 1376), 1376 * 127);
    // 128 segments or more: cut to 127 segments' worth.
    assert_eq!(send_len(1376 * 128, 1376), 1376 * 127);
    assert_eq!(send_len(1376 * 127 + 1, 1376), 1376 * 126 + 1);
    assert_eq!(send_len(1376 * 300 + 5, 1376), 1376 * 126 + 5);
    assert_eq!(send_len(1000, 1), 127);
    assert_eq!(IKCP_WND_RCV, 128);
}

#[test]
fn engine_return_codes() {
    assert!(matches!(recv_result(11, 64, 11), Ok(11)));
    assert!(matches!(
        recv_result(-3, 64, 100),
        Err(KcpError::Core(KcpErrorKind::BufferTooSmall(64, 100)))
    ));
    assert!(matches!(recv_result(-1, 64, -1), Ok(n) if n == usize::MAX));
    assert!(matches!(send_result(0), Ok(0)));
    assert!(matches!(send_result(-2), Err(KcpError::WriteError(-2))));
    assert!(matches!(input_result(0), Ok(())));
    assert!(matches!(input_result(-1), Err(KcpError::Core(KcpErrorKind::InputError(-1)))));
}

#[test]
fn conv_is_little_endian() {
    assert_eq!(get_conv(&[1, 0, 0, 0, 99]), 1);
    assert_eq!(get_conv(&[0x78, 0x56, 0x34, 0x12]), 0x1234_5678);
    assert_eq!(get_conv(&[0xff, 0xff, 0xff, 0xff]), u32::MAX);
}

#[test]
fn conv_allocation_skips_used_ids() {
    let mut sessions: HashMap<u32, ()> = HashMap::new();
    let mut conv = KcpConv::new();
    assert!(matches!(conv.allocate(&sessions), Ok(1)));
    // Not yet in use: the same id again.
    assert!(matches!(conv.allocate(&sessions), Ok(1)));
    sessions.insert(1, ());
    sessions.insert(2, ());
    assert!(matches!(conv.allocate(&sessions), Ok(3)));
    sessions.insert(3, ());
    sessions.remove(&1);
    assert!(matches!(conv.allocate(&sessions), Ok(4)));
}

#[test]
fn remote_conv_is_the_peers() {
    let mut r = RemoteConv(77);
    assert!(matches!(r.allocate(), Ok(77)));
    r.deallocate(77);
    assert_eq!(r.0, 77);
}

#[test]
fn errors_to_io() {
    assert_eq!(KcpError::Closed.io_parts(), Some((IoErrorKind::BrokenPipe, IoMessage::Plain)));
    assert_eq!(KcpError::NoMoreConv.io_parts(), Some((IoErrorKind::AddrInUse, IoMessage::ConvExhausted)));
    assert_eq!(KcpError::WriteError(-4).io_parts(), Some((IoErrorKind::Other, IoMessage::Write(-4))));
    assert_eq!(KcpError::ReadTimeout(1).io_parts(), Some((IoErrorKind::TimedOut, IoMessage::Plain)));
    assert_eq!(KcpError::WriteTimeout(1).io_parts(), Some((IoErrorKind::TimedOut, IoMessage::Plain)));
    assert_eq!(KcpError::SignalReadClosed.io_parts(), Some((IoErrorKind::BrokenPipe, IoMessage::Plain)));
    assert_eq!(KcpError::SignalSendClosed.io_parts(), Some((IoErrorKind::BrokenPipe, IoMessage::Plain)));
    assert_eq!(
        KcpError::from(KcpErrorKind::CreateFail).io_parts(),
        Some((IoErrorKind::OutOfMemory, IoMessage::Plain))
    );
    assert_eq!(
        KcpError::Core(KcpErrorKind::InputError(-1)).io_parts(),
        Some((IoErrorKind::InvalidInput, IoMessage::Plain))
    );
    assert_eq!(
        KcpError::Core(KcpErrorKind::InvalidConv(3)).io_parts(),
        Some((IoErrorKind::InvalidData, IoMessage::InvalidConv))
    );
    assert_eq!(
        KcpError::Core(KcpErrorKind::BufferTooSmall(1, 2)).io_parts(),
        Some((IoErrorKind::Other, IoMessage::BufferTooSmall(1, 2)))
    );
    assert_eq!(
        KcpError::Core(KcpErrorKind::InvalidCommand(1, 2)).io_parts(),
        Some((IoErrorKind::InvalidData, IoMessage::InvalidHeader))
    );
    let io = std::io::Error::new(std::io::ErrorKind::Other, "x");
    let e = KcpError::from(io);
    assert!(matches!(e, KcpError::Core(KcpErrorKind::StdIoError(_))));
    assert_eq!(e.io_parts(), None);
}

#[test]
fn reader_decisions() {
    let mut r = ReaderTask::new();
    assert!(!r.reads_socket());
    assert!(matches!(r.step(Sig::Signal(Ok(KcpReadSig::Resume))), ReadStep::Continue));
    assert!(r.reads_socket());
    assert!(matches!(r.step(Sig::Data(Ok(12))), ReadStep::Dispatch(12)));
    assert!(r.reads_socket());
    assert!(matches!(r.step(Sig::Signal(Ok(KcpReadSig::Pause))), ReadStep::Continue));
    assert!(!r.reads_socket());
    assert!(matches!(r.step(Sig::Signal(Ok(KcpReadSig::Quit))), ReadStep::Finish(Ok(()))));
    assert!(matches!(
        r.step(Sig::Signal(Err(KcpError::SignalSendClosed))),
        ReadStep::Finish(Err(KcpError::SignalSendClosed))
    ));
    let io = std::io::Error::new(std::io::ErrorKind::ConnectionReset, "reset");
    assert!(matches!(
        r.step(Sig::Data(Err(io))),
        ReadStep::Shutdown(KcpError::Core(KcpErrorKind::StdIoError(_)))
    ));
}

#[test]
fn io_error_round_trip_keeps_the_error() {
    let io = std::io::Error::new(std::io::ErrorKind::ConnectionRefused, "refused");
    match KcpError::from(io).into_io() {
        kcp_rust::IoConversion::Keep(e) => {
            assert_eq!(e.kind(), std::io::ErrorKind::ConnectionRefused);
            assert_eq!(e.to_string(), "refused");
        }
        kcp_rust::IoConversion::Make(..) => panic!("the error was not handed back"),
    }
    assert!(matches!(
        KcpError::NoMoreConv.into_io(),
        kcp_rust::IoConversion::Make(IoErrorKind::AddrInUse, IoMessage::ConvExhausted)
    ));
    assert!(matches!(
        KcpError::WriteError(-2).into_io(),
        kcp_rust::IoConversion::Make(IoErrorKind::Other, IoMessage::Write(-2))
    ));
}

#[test]
fn connector_sessions_drop_refused_packets() {
    let mut t: kcp_rust::ClientSessions<&'static str> = kcp_rust::ClientSessions::new();
    assert_eq!(t.lookup(3), None);
    t.manage(3, "a");
    t.manage(4, "b");
    assert_eq!(t.len(), 2);
    assert_eq!(t.lookup(3), Some(&"a"));
    assert_eq!(t.after_input(3, Ok(())), None);
    assert_eq!(t.lookup(3), Some(&"a"));
    assert_eq!(t.after_input(3, Err(KcpError::Closed)), Some("a"));
    assert_eq!(t.lookup(3), None);
    assert_eq!(t.after_input(3, Err(KcpError::Closed)), None);
    assert_eq!(t.remove(4), Some("b"));
    assert_eq!(t.len(), 0);

    // Allocation skips the ids the table holds.
    let mut conv = KcpConv::new();
    t.manage(1, "c");
    assert!(matches!(conv.allocate(t.map()), Ok(2)));
}
