use vstd::prelude::*;
use vstd::arithmetic::div_mod::{lemma_fundamental_div_mod, lemma_div_is_ordered};
use crate::error::{KcpError, KcpErrorKind};

verus! {

/// The configuration of a KCP engine.
#[derive(Clone, Debug, Copy, PartialEq, Eq, Structural)]
pub struct KcpConfig {
    pub nc: bool,
    pub mtu: u32,
    pub timeout: u32,
    pub nodelay: bool,
    pub interval: i32,
    pub resend: i32,
    pub rcvwnd_size: i32,
    pub sndwnd_size: i32,
    pub close_delay: u32,
}

pub open spec fn spec_fast_mode() -> KcpConfig {
    KcpConfig {
        nc: true,
        mtu: 1400,
        timeout: 15000,
        nodelay: true,
        interval: 5,
        resend: 2,
        rcvwnd_size: 2048,
        sndwnd_size: 2048,
        close_delay: 10000,
    }
}

pub open spec fn spec_normal_mode() -> KcpConfig {
    KcpConfig {
        nc: false,
        mtu: 1400,
        timeout: 15000,
        nodelay: false,
        interval: 40,
        resend: 0,
        rcvwnd_size: 1024,
        sndwnd_size: 512,
        close_delay: 15000,
    }
}

/// The low-latency configuration: no congestion control, no delay, fast
/// resend.
pub fn fast_mode() -> (c: KcpConfig)
    ensures
        c == spec_fast_mode(),
{
    KcpConfig {
        nc: true,
        mtu: 1400,
        timeout: 15000,
        nodelay: true,
        interval: 5,
        resend: 2,
        rcvwnd_size: 2048,
        sndwnd_size: 2048,
        close_delay: 10000,
    }
}

/// The conservative configuration: congestion control on, 40 ms interval.
pub fn normal_mode() -> (c: KcpConfig)
    ensures
        c == spec_normal_mode(),
{
    KcpConfig {
        nc: false,
        mtu: 1400,
        timeout: 15000,
        nodelay: false,
        interval: 40,
        resend: 0,
        rcvwnd_size: 1024,
        sndwnd_size: 512,
        close_delay: 15000,
    }
}

/// Hands out conversation ids for new sessions.
pub trait ConvAllocator {
    fn allocate(&mut self) -> Result<u32, KcpError>;

    fn deallocate(&mut self, conv: u32);
}

/// The number of segments that the engine's receive window holds.
pub const IKCP_WND_RCV: usize = 128;

/// The number of segments of at most `mss` bytes that `len` bytes take.
pub open spec fn segment_count(len: int, mss: int) -> int {
    (len + mss - 1) / mss
}

/// How many bytes of a payload of `len` bytes one send hands to the engine:
/// all of them, unless they take `IKCP_WND_RCV` segments or more, in which
/// case the payload is cut to its first 127 segments' worth.
pub open spec fn spec_send_len(len: int, mss: int) -> int {
    if len > mss && segment_count(len, mss) >= IKCP_WND_RCV {
        len - mss * (segment_count(len, mss) - IKCP_WND_RCV) - mss
    } else {
        len
    }
}

proof fn lemma_segment_count_bounds(len: int, mss: int)
    requires
        mss > 0,
        len >= 0,
    ensures
        mss * segment_count(len, mss) >= len,
        mss * (segment_count(len, mss) - 1) < len || len == 0,
        segment_count(len, mss) >= 0,
{
    let x = len + mss - 1;
    lemma_fundamental_div_mod(x, mss);
    let q = x / mss;
    let r = x % mss;
    assert(0 <= r < mss);
    assert(mss * q == x - r);
    assert(mss * (q - 1) == mss * q - mss) by (nonlinear_arith);
    lemma_div_is_ordered(0, x, mss);
}

/// The length of the part of a payload that one send hands to the engine,
/// given the engine's maximum segment size `mss`.
pub fn send_len(data_len: usize, mss: usize) -> (n: usize)
    requires
        data_len > mss ==> mss > 0 && data_len + mss <= usize::MAX,
    ensures
        n == spec_send_len(data_len as int, mss as int),
{
    if data_len > mss {
        let count = (data_len + mss - 1) / mss;
        if count >= IKCP_WND_RCV {
            proof {
                lemma_segment_count_bounds(data_len as int, mss as int);
                assert(mss * (count - IKCP_WND_RCV) + mss <= mss * (count - 1)) by (nonlinear_arith)
                    requires
                        count >= IKCP_WND_RCV,
                        IKCP_WND_RCV == 128,
                        mss > 0,
                ;
            }
            let size = data_len - (mss * (count - IKCP_WND_RCV)) - mss;
            return size;
        }
    }
    data_len
}

/// A send never hands the engine more than the payload, nor more segments
/// than the receive window holds; a non-empty payload is never cut to
/// nothing; and a payload that fits the window is handed over whole.
pub proof fn lemma_send_len_fits_window(len: int, mss: int)
    requires
        mss > 0,
        len >= 0,
    ensures
        0 <= spec_send_len(len, mss) <= len,
        len > 0 ==> spec_send_len(len, mss) > 0,
        segment_count(spec_send_len(len, mss), mss) < IKCP_WND_RCV,
        segment_count(len, mss) < IKCP_WND_RCV ==> spec_send_len(len, mss) == len,
{
    lemma_segment_count_bounds(len, mss);
    let c = segment_count(len, mss);
    let n = spec_send_len(len, mss);
    if len > mss && c >= IKCP_WND_RCV {
        assert(n == len - mss * (c - 1) + mss * 126) by (nonlinear_arith)
            requires
                n == len - mss * (c - IKCP_WND_RCV) - mss,
                IKCP_WND_RCV == 128,
        ;
        assert(n <= mss * 127) by (nonlinear_arith)
            requires
                n == len - mss * (c - 1) + mss * 126,
                mss * c >= len,
        ;
        assert(n + mss - 1 <= 128 * mss - 1);
        lemma_div_is_ordered(n + mss - 1, 128 * mss - 1, mss);
        lemma_fundamental_div_mod(128 * mss - 1, mss);
        assert((128 * mss - 1) / mss <= 127) by (nonlinear_arith)
            requires
                mss > 0,
                128 * mss - 1 == mss * ((128 * mss - 1) / mss) + (128 * mss - 1) % mss,
                0 <= (128 * mss - 1) % mss,
        ;
    } else {
        if len <= mss {
            lemma_div_is_ordered(len + mss - 1, 2 * mss - 1, mss);
            lemma_fundamental_div_mod(2 * mss - 1, mss);
            assert((2 * mss - 1) / mss <= 1) by (nonlinear_arith)
                requires
                    mss > 0,
                    2 * mss - 1 == mss * ((2 * mss - 1) / mss) + (2 * mss - 1) % mss,
                    0 <= (2 * mss - 1) % mss,
            ;
        }
    }
}

/// What a receive returns, given the engine's return code, the size of the
/// caller's buffer and the size of the next message waiting.
pub open spec fn spec_recv_result(retval: i32, buf_len: usize, peeksize: i32) -> Result<usize, KcpError> {
    if retval == -3 {
        Err(KcpError::Core(KcpErrorKind::BufferTooSmall(buf_len, peeksize as usize)))
    } else {
        Ok(retval as usize)
    }
}

/// The result of a receive, from the engine's return code: the engine's
/// code -3 means that the next message does not fit the buffer.
pub fn recv_result(retval: i32, buf_len: usize, peeksize: i32) -> (r: Result<usize, KcpError>)
    ensures
        r == spec_recv_result(retval, buf_len, peeksize),
{
    if retval == -3 {
        Err(KcpError::Core(KcpErrorKind::BufferTooSmall(buf_len, peeksize as usize)))
    } else {
        Ok(retval as usize)
    }
}

/// The result of a send, from the engine's return code.
pub fn send_result(retval: i32) -> (r: Result<usize, KcpError>)
    ensures
        retval < 0 ==> r == Err::<usize, KcpError>(KcpError::WriteError(retval)),
        retval >= 0 ==> r == Ok::<usize, KcpError>(retval as usize),
{
    if retval < 0 {
        Err(KcpError::WriteError(retval))
    } else {
        Ok(retval as usize)
    }
}

/// The result of handing a packet to the engine, from its return code.
pub fn input_result(retval: i32) -> (r: Result<(), KcpError>)
    ensures
        retval < 0 ==> r == Err::<(), KcpError>(KcpError::Core(KcpErrorKind::InputError(retval))),
        retval >= 0 ==> r == Ok::<(), KcpError>(()),
{
    if retval < 0 {
        Err(KcpError::Core(KcpErrorKind::InputError(retval)))
    } else {
        Ok(())
    }
}

/// The conversation id that a packet carries: its first four bytes, read
/// as a little-endian number.
pub open spec fn spec_get_conv(pkt: Seq<u8>) -> u32 {
    (pkt[0] + 256 * pkt[1] + 65536 * pkt[2] + 16777216 * pkt[3]) as u32
}

/// The conversation id that a packet carries.
pub fn get_conv(pkt: &[u8]) -> (conv: u32)
    requires
        pkt.len() >= 4,
    ensures
        conv == spec_get_conv(pkt@),
        conv as int == pkt[0] + 256 * pkt[1] + 65536 * pkt[2] + 16777216 * pkt[3],
{
    let b0 = pkt[0] as u32;
    let b1 = pkt[1] as u32;
    let b2 = pkt[2] as u32;
    let b3 = pkt[3] as u32;
    b0 + 256 * b1 + 65536 * b2 + 16777216 * b3
}

} // verus!
