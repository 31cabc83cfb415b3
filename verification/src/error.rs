use vstd::prelude::*;

verus! {

#[verifier::external_type_specification]
#[verifier::external_body]
pub struct ExIoError(std::io::Error);

/// The kinds of `std::io::Error` that this library reports.
#[derive(Debug, Clone, Copy, PartialEq, Eq, Structural)]
pub enum IoErrorKind {
    BrokenPipe,
    TimedOut,
    AddrInUse,
    Other,
    OutOfMemory,
    InvalidInput,
    InvalidData,
    Interrupted,
    UnexpectedEof,
}

/// The message that goes with an I/O error made from a `KcpError`.
#[derive(Debug, Clone, Copy, PartialEq, Eq, Structural)]
pub enum IoMessage {
    /// No message: the error is made from its kind alone.
    Plain,
    /// "conv exhausted"
    ConvExhausted,
    /// "write({code})"
    Write(i32),
    /// "invalid conv"
    InvalidConv,
    /// "buffer too small: {size} {need}"
    BufferTooSmall(usize, usize),
    /// "invalid header"
    InvalidHeader,
}

#[derive(Debug)]
pub enum KcpErrorKind {
    CreateFail,
    InputError(i32),
    InvalidConv(u32),
    BufferTooSmall(usize, usize),
    InvalidCommand(u32, u8),
    StdIoError(std::io::Error),
}

#[derive(Debug)]
pub enum KcpError {
    Core(KcpErrorKind),
    NoMoreConv,
    ReadTimeout(u32),
    WriteTimeout(u32),
    WriteError(i32),
    Closed,
    SignalReadClosed,
    SignalSendClosed,
}

/// The I/O error that a non-I/O error kind stands for; `None` for an
/// underlying I/O error, which is handed on as it is.
pub open spec fn spec_kind_io_parts(k: KcpErrorKind) -> Option<(IoErrorKind, IoMessage)> {
    match k {
        KcpErrorKind::CreateFail => Some((IoErrorKind::OutOfMemory, IoMessage::Plain)),
        KcpErrorKind::InputError(_) => Some((IoErrorKind::InvalidInput, IoMessage::Plain)),
        KcpErrorKind::InvalidConv(_) => Some((IoErrorKind::InvalidData, IoMessage::InvalidConv)),
        KcpErrorKind::BufferTooSmall(size, need) => Some(
            (IoErrorKind::Other, IoMessage::BufferTooSmall(size, need)),
        ),
        KcpErrorKind::InvalidCommand(_, _) => Some(
            (IoErrorKind::InvalidData, IoMessage::InvalidHeader),
        ),
        KcpErrorKind::StdIoError(_) => None,
    }
}

/// The I/O error that a `KcpError` stands for; `None` for an underlying I/O
/// error, which is handed on as it is.
pub open spec fn spec_io_parts(e: KcpError) -> Option<(IoErrorKind, IoMessage)> {
    match e {
        KcpError::Closed => Some((IoErrorKind::BrokenPipe, IoMessage::Plain)),
        KcpError::Core(kind) => spec_kind_io_parts(kind),
        KcpError::WriteTimeout(_) => Some((IoErrorKind::TimedOut, IoMessage::Plain)),
        KcpError::SignalReadClosed => Some((IoErrorKind::BrokenPipe, IoMessage::Plain)),
        KcpError::SignalSendClosed => Some((IoErrorKind::BrokenPipe, IoMessage::Plain)),
        KcpError::ReadTimeout(_) => Some((IoErrorKind::TimedOut, IoMessage::Plain)),
        KcpError::NoMoreConv => Some((IoErrorKind::AddrInUse, IoMessage::ConvExhausted)),
        KcpError::WriteError(val) => Some((IoErrorKind::Other, IoMessage::Write(val))),
    }
}

impl KcpErrorKind {
    /// The kind and message of the I/O error that this error converts to,
    /// or `None` where it holds an I/O error itself.
    pub fn io_parts(&self) -> (r: Option<(IoErrorKind, IoMessage)>)
        ensures
            r == spec_kind_io_parts(*self),
    {
        match self {
            KcpErrorKind::CreateFail => Some((IoErrorKind::OutOfMemory, IoMessage::Plain)),
            KcpErrorKind::InputError(_) => Some((IoErrorKind::InvalidInput, IoMessage::Plain)),
            KcpErrorKind::InvalidConv(_) => Some((IoErrorKind::InvalidData, IoMessage::InvalidConv)),
            KcpErrorKind::BufferTooSmall(size, need) => Some(
                (IoErrorKind::Other, IoMessage::BufferTooSmall(*size, *need)),
            ),
            KcpErrorKind::InvalidCommand(_, _) => Some(
                (IoErrorKind::InvalidData, IoMessage::InvalidHeader),
            ),
            KcpErrorKind::StdIoError(_) => None,
        }
    }
}

impl KcpError {
    /// The kind and message of the I/O error that this error converts to,
    /// or `None` where it holds an I/O error itself.
    pub fn io_parts(&self) -> (r: Option<(IoErrorKind, IoMessage)>)
        ensures
            r == spec_io_parts(*self),
    {
        match self {
            KcpError::Closed => Some((IoErrorKind::BrokenPipe, IoMessage::Plain)),
            KcpError::Core(kind) => kind.io_parts(),
            KcpError::WriteTimeout(_) => Some((IoErrorKind::TimedOut, IoMessage::Plain)),
            KcpError::SignalReadClosed => Some((IoErrorKind::BrokenPipe, IoMessage::Plain)),
            KcpError::SignalSendClosed => Some((IoErrorKind::BrokenPipe, IoMessage::Plain)),
            KcpError::ReadTimeout(_) => Some((IoErrorKind::TimedOut, IoMessage::Plain)),
            KcpError::NoMoreConv => Some((IoErrorKind::AddrInUse, IoMessage::ConvExhausted)),
            KcpError::WriteError(val) => Some((IoErrorKind::Other, IoMessage::Write(*val))),
        }
    }
}

/// What the I/O error that a `KcpError` converts to is made of: the
/// underlying I/O error itself, handed back unchanged, or a kind and a
/// message to make a new one from.
pub enum IoConversion {
    Keep(std::io::Error),
    Make(IoErrorKind, IoMessage),
}

/// The conversion of a `KcpError` to an I/O error.
pub open spec fn spec_into_io(e: KcpError) -> IoConversion {
    match e {
        KcpError::Core(KcpErrorKind::StdIoError(io)) => IoConversion::Keep(io),
        _ => IoConversion::Make(spec_io_parts(e).unwrap().0, spec_io_parts(e).unwrap().1),
    }
}

impl KcpError {
    /// What the I/O error that this error converts to is made of: an
    /// underlying I/O error is handed back as it is.
    pub fn into_io(self) -> (r: IoConversion)
        ensures
            r == spec_into_io(self),
    {
        match self {
            KcpError::Core(KcpErrorKind::StdIoError(io)) => IoConversion::Keep(io),
            other => {
                let parts = other.io_parts();
                match parts {
                    Some((kind, message)) => IoConversion::Make(kind, message),
                    None => {
                        proof {
                            assert(false);
                        }
                        IoConversion::Make(IoErrorKind::Other, IoMessage::Plain)
                    },
                }
            },
        }
    }
}

/// An I/O error converted to a `KcpError` and back is the same I/O error:
/// same kind, same message, same source.
pub proof fn lemma_io_error_round_trip(e: std::io::Error)
    ensures
        spec_into_io(
            <KcpError as vstd::std_specs::convert::FromSpec<std::io::Error>>::from_spec(e),
        ) == IoConversion::Keep(e),
{
}

/// Every error that does not hold an I/O error converts to a new one made
/// from its kind and message.
pub proof fn lemma_io_conversion_total(e: KcpError)
    ensures
        !(e matches KcpError::Core(KcpErrorKind::StdIoError(_))) ==> spec_io_parts(e).is_some(),
        spec_io_parts(e).is_none() <==> (e matches KcpError::Core(KcpErrorKind::StdIoError(_))),
{
}

impl From<KcpErrorKind> for KcpError {
    fn from(value: KcpErrorKind) -> (r: Self) {
        KcpError::Core(value)
    }
}

impl vstd::std_specs::convert::FromSpecImpl<KcpErrorKind> for KcpError {
    open spec fn obeys_from_spec() -> bool {
        true
    }

    open spec fn from_spec(v: KcpErrorKind) -> Self {
        KcpError::Core(v)
    }
}

impl From<std::io::Error> for KcpError {
    fn from(e: std::io::Error) -> (r: Self) {
        KcpError::Core(KcpErrorKind::StdIoError(e))
    }
}

impl vstd::std_specs::convert::FromSpecImpl<std::io::Error> for KcpError {
    open spec fn obeys_from_spec() -> bool {
        true
    }

    open spec fn from_spec(v: std::io::Error) -> Self {
        KcpError::Core(KcpErrorKind::StdIoError(v))
    }
}

} // verus!
