use vstd::prelude::*;
use crate::error::KcpError;
use crate::kcp::ConvAllocator;
use std::collections::HashMap;

verus! {

/// Where the closing of a listener's session stands, by address hash and
/// conversation id.
pub enum KcpCloseState {
    Close(u64, u32),
    Prepare(u64, u32),
}

/// The allocator of a listener's session: the id is the one the peer chose.
pub struct RemoteConv(pub u32);

impl ConvAllocator for RemoteConv {
    fn allocate(&mut self) -> (r: Result<u32, KcpError>)
        ensures
            r == Ok::<u32, KcpError>(old(self).0),
            *final(self) == *old(self),
    {
        Ok(self.0)
    }

    fn deallocate(&mut self, _conv: u32) {
    }
}

/// The sessions of a listener, by the hash of the peer's address and by
/// conversation id.
pub struct SessionTable<V> {
    sessions: HashMap<u64, HashMap<u32, V>>,
}

/// The sessions of one peer: none where the table has no entry for it.
pub open spec fn peer_sessions<V>(m: Map<u64, Map<u32, V>>, id: u64) -> Map<u32, V> {
    if m.contains_key(id) {
        m[id]
    } else {
        Map::empty()
    }
}

/// The table after keeping `v` as the session `conv` of the peer `id`.
pub open spec fn manage_view<V>(m: Map<u64, Map<u32, V>>, id: u64, conv: u32, v: V) -> Map<u64, Map<u32, V>> {
    m.insert(id, peer_sessions(m, id).insert(conv, v))
}

/// The table after dropping the session `conv` of the peer `id`.
pub open spec fn remove_view<V>(m: Map<u64, Map<u32, V>>, id: u64, conv: u32) -> Map<u64, Map<u32, V>> {
    m.insert(id, peer_sessions(m, id).remove(conv))
}

/// The table after looking up a session of the peer `id`: the peer gets an
/// entry, empty if it had none.
pub open spec fn lookup_view<V>(m: Map<u64, Map<u32, V>>, id: u64) -> Map<u64, Map<u32, V>> {
    m.insert(id, peer_sessions(m, id))
}

/// The session `conv` of the peer `id`, if the table holds it.
pub open spec fn session_of<V>(m: Map<u64, Map<u32, V>>, id: u64, conv: u32) -> Option<V> {
    if peer_sessions(m, id).contains_key(conv) {
        Some(peer_sessions(m, id)[conv])
    } else {
        None
    }
}

impl<V> View for SessionTable<V> {
    type V = Map<u64, Map<u32, V>>;

    closed spec fn view(&self) -> Map<u64, Map<u32, V>> {
        Map::new(|id: u64| self.sessions@.contains_key(id), |id: u64| self.sessions@[id]@)
    }
}

impl<V> SessionTable<V> {
    /// An empty table.
    pub fn new() -> (t: SessionTable<V>)
        ensures
            t@ == Map::<u64, Map<u32, V>>::empty(),
    {
        let t = SessionTable { sessions: HashMap::new() };
        assert(t@ =~= Map::<u64, Map<u32, V>>::empty());
        t
    }

    fn take_peer(&mut self, id: u64) -> (r: HashMap<u32, V>)
        ensures
            r@ == peer_sessions(old(self)@, id),
            final(self)@ == old(self)@.remove(id),
    {
        broadcast use vstd::std_specs::hash::group_hash_axioms;
        let r = match self.sessions.remove(&id) {
            Some(m) => m,
            None => HashMap::new(),
        };
        assert(self@ =~= old(self)@.remove(id));
        r
    }

    fn put_peer(&mut self, id: u64, m: HashMap<u32, V>)
        ensures
            final(self)@ == old(self)@.insert(id, m@),
    {
        broadcast use vstd::std_specs::hash::group_hash_axioms;
        self.sessions.insert(id, m);
        assert(self@ =~= old(self)@.insert(id, m@));
    }

    /// Keeps `kcp` as the session `conv` of the peer `id`, in place of any
    /// session it had under that id.
    pub fn manage(&mut self, id: u64, conv: u32, kcp: V)
        ensures
            final(self)@ == manage_view(old(self)@, id, conv, kcp),
    {
        broadcast use vstd::std_specs::hash::group_hash_axioms;
        let mut peer = self.take_peer(id);
        peer.insert(conv, kcp);
        self.put_peer(id, peer);
        assert(self@ =~= manage_view(old(self)@, id, conv, kcp));
    }

    /// Drops the session `conv` of the peer `id`, and returns it.
    pub fn remove(&mut self, id: u64, conv: u32) -> (r: Option<V>)
        ensures
            r == session_of(old(self)@, id, conv),
            final(self)@ == remove_view(old(self)@, id, conv),
    {
        broadcast use vstd::std_specs::hash::group_hash_axioms;
        let mut peer = self.take_peer(id);
        let r = peer.remove(&conv);
        self.put_peer(id, peer);
        assert(self@ =~= remove_view(old(self)@, id, conv));
        r
    }

    /// The session `conv` of the peer `id`. The peer gets an entry, empty
    /// if it had none.
    pub fn lookup(&mut self, id: u64, conv: u32) -> (r: Option<&V>)
        ensures
            r matches Some(v) ==> session_of(old(self)@, id, conv) == Some(*v),
            r is None ==> session_of(old(self)@, id, conv) is None,
            final(self)@ == lookup_view(old(self)@, id),
    {
        broadcast use vstd::std_specs::hash::group_hash_axioms;
        if !self.sessions.contains_key(&id) {
            self.sessions.insert(id, HashMap::new());
        }
        assert(self@ =~= lookup_view(old(self)@, id));
        match self.sessions.get(&id) {
            Some(peer) => peer.get(&conv),
            None => None,
        }
    }
}

/// What a listener does with a datagram it received, or with a receive
/// error.
pub enum Datagram<A> {
    /// The socket failed this time: skip it and receive again.
    Skip,
    /// A datagram of this many bytes from this peer: route it.
    Dispatch(A, usize),
}

/// The listener's decision on the outcome of a receive: errors are
/// skipped, datagrams are routed by their peer.
pub fn datagram_step<A>(received: Result<(A, usize), std::io::Error>) -> (r: Datagram<A>)
    ensures
        match received {
            Err(_) => r is Skip,
            Ok((addr, n)) => r == Datagram::Dispatch(addr, n),
        },
{
    match received {
        Err(_) => Datagram::Skip,
        Ok((addr, n)) => Datagram::Dispatch(addr, n),
    }
}

/// What follows the engine's answer to a datagram for a session.
#[derive(Debug, Clone, Copy, PartialEq, Eq, Structural)]
pub enum AfterInput {
    /// A known session took the datagram: nothing more to do.
    Keep,
    /// The engine refused the datagram: close the session by force.
    ForceClose,
    /// A new session took its first datagram: it is now kept in the table;
    /// register it with the poller and hand it to `accept`.
    Accept,
}

/// Decides what follows the engine's answer `input` to a datagram for the
/// session `conv` of peer `id`; `is_new` says that the table did not hold
/// it and `v` was made for it. On `Accept`, `v` is kept in the table; a new
/// session whose first datagram is refused is never kept.
pub fn after_input<V>(
    table: &mut SessionTable<V>,
    id: u64,
    conv: u32,
    is_new: bool,
    v: V,
    input: Result<(), KcpError>,
) -> (r: AfterInput)
    ensures
        input is Err ==> r == AfterInput::ForceClose && final(table)@ == old(table)@,
        input is Ok && !is_new ==> r == AfterInput::Keep && final(table)@ == old(table)@,
        input is Ok && is_new ==> r == AfterInput::Accept && final(table)@ == manage_view(
            old(table)@,
            id,
            conv,
            v,
        ),
{
    match input {
        Err(_) => AfterInput::ForceClose,
        Ok(()) => {
            if is_new {
                table.manage(id, conv, v);
                AfterInput::Accept
            } else {
                AfterInput::Keep
            }
        },
    }
}

/// What the closer task of a connector or listener is woken by.
pub enum CloseEvent<K> {
    /// A stream went away: close the session `K`; `found` says whether the
    /// session table still holds it.
    Requested(K, bool),
    /// The session `K` has finished closing.
    Finished(K),
}

/// What the closer task does next.
pub enum CloseAction<K> {
    /// The session is gone already: nothing to do.
    Ignore,
    /// Wait for the session `K` to finish closing.
    Watch(K),
    /// Drop the session `K` from the table and close it by force.
    Remove(K),
}

/// The closer task's decision.
pub fn closer_step<K>(event: CloseEvent<K>) -> (r: CloseAction<K>)
    ensures
        match event {
            CloseEvent::Requested(k, true) => r == CloseAction::Watch(k),
            CloseEvent::Requested(_, false) => r is Ignore,
            CloseEvent::Finished(k) => r == CloseAction::Remove(k),
        },
{
    match event {
        CloseEvent::Requested(k, found) => {
            if found {
                CloseAction::Watch(k)
            } else {
                CloseAction::Ignore
            }
        },
        CloseEvent::Finished(k) => CloseAction::Remove(k),
    }
}

/// A session kept in the table is found there, and no other session
/// changes; a session dropped is found no more.
pub proof fn lemma_table_read_after_write<V>(m: Map<u64, Map<u32, V>>, id: u64, conv: u32, v: V, id2: u64, conv2: u32)
    ensures
        session_of(manage_view(m, id, conv, v), id, conv) == Some(v),
        session_of(remove_view(m, id, conv), id, conv) is None,
        (id2, conv2) != (id, conv) ==> session_of(manage_view(m, id, conv, v), id2, conv2) == session_of(m, id2, conv2),
        (id2, conv2) != (id, conv) ==> session_of(remove_view(m, id, conv), id2, conv2) == session_of(m, id2, conv2),
        session_of(lookup_view(m, id), id2, conv2) == session_of(m, id2, conv2),
{
}

} // verus!
