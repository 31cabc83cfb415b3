use vstd::prelude::*;
use std::collections::HashMap;
use crate::error::KcpError;
use crate::signal::{KcpReadSig, Sig};

verus! {

/// The number of conversation ids a connector can hand out: every `u32`
/// but 0.
pub open spec fn conv_space() -> nat {
    0xffff_ffffnat
}

/// The `k`-th id after `start` in the order in which a connector tries
/// them: upwards from `start`, wrapping from `u32::MAX` to 1.
pub open spec fn conv_after(start: u32, k: nat) -> u32 {
    (((start - 1 + k) % (conv_space() as int)) + 1) as u32
}

proof fn lemma_conv_after_step(start: u32, k: nat)
    requires
        start != 0,
    ensures
        1 <= conv_after(start, k),
        conv_after(start, k + 1) == if conv_after(start, k) == u32::MAX {
            1u32
        } else {
            (conv_after(start, k) + 1) as u32
        },
{
    let m = conv_space() as int;
    let a = (start - 1 + k) % m;
    assert(0 <= a < m);
    let b = (start - 1 + k + 1) % m;
    vstd::arithmetic::div_mod::lemma_add_mod_noop(start - 1 + k, 1, m);
    assert(b == (a + 1) % m);
    if a + 1 == m {
        vstd::arithmetic::div_mod::lemma_mod_self_0(m);
    } else {
        vstd::arithmetic::div_mod::lemma_small_mod((a + 1) as nat, m as nat);
    }
}

proof fn lemma_conv_after_returns(start: u32, k: nat)
    requires
        start != 0,
        0 < k < conv_space(),
    ensures
        conv_after(start, k) != start,
        conv_after(start, 0) == start,
{
    let m = conv_space() as int;
    let x = start - 1 + k;
    vstd::arithmetic::div_mod::lemma_small_mod((start - 1) as nat, m as nat);
    if x < m {
        vstd::arithmetic::div_mod::lemma_small_mod(x as nat, m as nat);
    } else {
        vstd::arithmetic::div_mod::lemma_fundamental_div_mod_converse(x, m, 1, x - m);
    }
}

/// The conversation-id counter of a connector: the id it tries first on
/// its next allocation. It is never 0.
pub struct KcpConv {
    conv: u32,
}

impl KcpConv {
    #[verifier::type_invariant]
    spec fn inv(self) -> bool {
        self.conv != 0
    }

    /// The id tried first on the next allocation.
    pub closed spec fn next_conv(self) -> u32 {
        self.conv
    }

    /// A counter that starts at 1.
    pub fn new() -> (r: KcpConv)
        ensures
            r.next_conv() == 1,
    {
        KcpConv { conv: 1 }
    }

    /// Picks the id for a new session: the first id, in the order upwards
    /// from the counter and wrapping from `u32::MAX` to 1, that `sessions`
    /// does not hold. The counter stays at the id picked. `NoMoreConv`
    /// when every id from 1 to `u32::MAX` is in use.
    pub fn allocate<V>(&mut self, sessions: &HashMap<u32, V>) -> (r: Result<u32, KcpError>)
        ensures
            old(self).next_conv() != 0,
            match r {
                Ok(c) => {
                    &&& final(self).next_conv() == c
                    &&& c != 0
                    &&& !sessions@.contains_key(c)
                    &&& exists|k: nat|
                        #![trigger conv_after(old(self).next_conv(), k)]
                        k < conv_space() && c == conv_after(old(self).next_conv(), k) && forall|j: nat|
                            j < k ==> sessions@.contains_key(
                                #[trigger] conv_after(old(self).next_conv(), j),
                            )
                },
                Err(e) => {
                    &&& e == KcpError::NoMoreConv
                    &&& final(self).next_conv() == old(self).next_conv()
                    &&& forall|j: nat|
                        j < conv_space() ==> sessions@.contains_key(
                            #[trigger] conv_after(old(self).next_conv(), j),
                        )
                },
            },
    {
        broadcast use vstd::std_specs::hash::group_hash_axioms;
        proof {
            use_type_invariant(&*self);
        }
        let last_conv = self.conv;
        let mut cur = self.conv;
        let ghost mut k: nat = 0;
        proof {
            vstd::arithmetic::div_mod::lemma_small_mod((last_conv - 1) as nat, conv_space());
        }
        while sessions.contains_key(&cur)
            invariant
                last_conv != 0,
                last_conv == old(self).next_conv(),
                k < conv_space(),
                cur == conv_after(last_conv, k),
                forall|j: nat| j < k ==> sessions@.contains_key(#[trigger] conv_after(last_conv, j)),
            decreases conv_space() - k,
        {
            proof {
                lemma_conv_after_step(last_conv, k);
            }
            let next = if cur == u32::MAX {
                1
            } else {
                cur + 1
            };
            if next == last_conv {
                proof {
                    if k + 1 < conv_space() {
                        lemma_conv_after_returns(last_conv, k + 1);
                    }
                    assert(sessions@.contains_key(conv_after(last_conv, k)));
                }
                return Err(KcpError::NoMoreConv);
            }
            proof {
                if k + 1 == conv_space() {
                    vstd::arithmetic::div_mod::lemma_mod_self_0(conv_space() as int);
                    assert(conv_after(last_conv, k + 1) == last_conv) by {
                        vstd::arithmetic::div_mod::lemma_add_mod_noop(
                            (last_conv - 1) as int,
                            conv_space() as int,
                            conv_space() as int,
                        );
                    }
                }
                k = k + 1;
            }
            cur = next;
        }
        self.conv = cur;
        Ok(cur)
    }
}

/// The sessions of a connector, by conversation id.
pub struct ClientSessions<V> {
    sessions: HashMap<u32, V>,
}

impl<V> View for ClientSessions<V> {
    type V = Map<u32, V>;

    closed spec fn view(&self) -> Map<u32, V> {
        self.sessions@
    }
}

impl<V> ClientSessions<V> {
    /// No session.
    pub fn new() -> (t: ClientSessions<V>)
        ensures
            t@ == Map::<u32, V>::empty(),
    {
        ClientSessions { sessions: HashMap::new() }
    }

    /// The sessions as a map, for allocating the next id.
    pub fn map(&self) -> (m: &HashMap<u32, V>)
        ensures
            m@ == self@,
    {
        &self.sessions
    }

    /// The number of sessions.
    pub fn len(&self) -> (n: usize)
        ensures
            n == self@.len(),
    {
        broadcast use vstd::std_specs::hash::group_hash_axioms;
        self.sessions.len()
    }

    /// Keeps `kcp` as the session `conv`, in place of any session it had
    /// under that id.
    pub fn manage(&mut self, conv: u32, kcp: V)
        ensures
            final(self)@ == old(self)@.insert(conv, kcp),
    {
        broadcast use vstd::std_specs::hash::group_hash_axioms;
        self.sessions.insert(conv, kcp);
    }

    /// Drops the session `conv`, and returns it.
    pub fn remove(&mut self, conv: u32) -> (r: Option<V>)
        ensures
            final(self)@ == old(self)@.remove(conv),
            r == (if old(self)@.contains_key(conv) { Some(old(self)@[conv]) } else { None::<V> }),
    {
        broadcast use vstd::std_specs::hash::group_hash_axioms;
        self.sessions.remove(&conv)
    }

    /// The session `conv`, if there is one; a packet for no session is
    /// dropped.
    pub fn lookup(&self, conv: u32) -> (r: Option<&V>)
        ensures
            r matches Some(v) ==> self@.contains_key(conv) && *v == self@[conv],
            r is None ==> !self@.contains_key(conv),
    {
        broadcast use vstd::std_specs::hash::group_hash_axioms;
        self.sessions.get(&conv)
    }

    /// Decides what follows the engine's answer `input` to a packet for
    /// the session `conv`: a refused packet drops the session, which is
    /// returned to be closed by force; an accepted one changes nothing.
    pub fn after_input(&mut self, conv: u32, input: Result<(), KcpError>) -> (r: Option<V>)
        ensures
            input is Ok ==> r is None && final(self)@ == old(self)@,
            input is Err ==> final(self)@ == old(self)@.remove(conv) && r == (if old(self)@.contains_key(conv) {
                Some(old(self)@[conv])
            } else {
                None::<V>
            }),
    {
        match input {
            Ok(()) => None,
            Err(_) => self.remove(conv),
        }
    }
}

/// What the reader task of a connector does next.
pub enum ReadStep {
    /// Stop, with this result.
    Finish(Result<(), KcpError>),
    /// Wait again, reading the socket or not as the task's state says.
    Continue,
    /// The socket failed: close every session, stop every task, and stop
    /// with this error.
    Shutdown(KcpError),
    /// A datagram of this many bytes arrived: hand it to its session.
    Dispatch(usize),
}

/// The reader task of a connector: whether it reads the socket, and how it
/// answers what it is woken by. It starts paused, until the first session
/// is opened.
pub struct ReaderTask {
    paused: bool,
}

impl ReaderTask {
    /// Whether the task leaves the socket unread.
    pub closed spec fn is_paused(self) -> bool {
        self.paused
    }

    /// A task that does not read the socket until told to resume.
    pub fn new() -> (r: ReaderTask)
        ensures
            r.is_paused(),
    {
        ReaderTask { paused: true }
    }

    /// Whether the task reads the socket now.
    pub fn reads_socket(&self) -> (r: bool)
        ensures
            r == !self.is_paused(),
    {
        !self.paused
    }

    /// The decision on what the task was woken by: a datagram (or a socket
    /// error), or a signal (or the loss of its signal channel).
    pub fn step(&mut self, event: Sig<Result<usize, std::io::Error>, Result<KcpReadSig, KcpError>>) -> (r: ReadStep)
        ensures
            match event {
                Sig::Signal(Ok(KcpReadSig::Pause)) => final(self).is_paused(),
                Sig::Signal(Ok(KcpReadSig::Resume)) => !final(self).is_paused(),
                _ => final(self).is_paused() == old(self).is_paused(),
            },
            match event {
                Sig::Signal(Err(e)) => r == ReadStep::Finish(Err(e)),
                Sig::Signal(Ok(KcpReadSig::Quit)) => r == ReadStep::Finish(Ok(())),
                Sig::Signal(Ok(KcpReadSig::Pause)) => r == ReadStep::Continue,
                Sig::Signal(Ok(KcpReadSig::Resume)) => r == ReadStep::Continue,
                Sig::Data(Err(e)) => r == ReadStep::Shutdown(
                    KcpError::Core(crate::error::KcpErrorKind::StdIoError(e)),
                ),
                Sig::Data(Ok(n)) => r == ReadStep::Dispatch(n),
            },
    {
        match event {
            Sig::Signal(Err(e)) => ReadStep::Finish(Err(e)),
            Sig::Signal(Ok(KcpReadSig::Quit)) => ReadStep::Finish(Ok(())),
            Sig::Signal(Ok(KcpReadSig::Pause)) => {
                self.paused = true;
                ReadStep::Continue
            },
            Sig::Signal(Ok(KcpReadSig::Resume)) => {
                self.paused = false;
                ReadStep::Continue
            },
            Sig::Data(Err(e)) => ReadStep::Shutdown(KcpError::from(e)),
            Sig::Data(Ok(n)) => ReadStep::Dispatch(n),
        }
    }
}

} // verus!
