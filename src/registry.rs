use vstd::prelude::*;

use std::sync::Arc;
use tokio::sync::mpsc::UnboundedSender;

use crate::channel::{new_lock, share, ClipboardReceiver};
use crate::conn_id::{get_conn_id, ConnIdAllocator};
use crate::message::ClipboardFile;

verus! {

/// What a registered channel is, seen from outside: the peer it serves
/// (empty for a channel that a server opened by connection id), its
/// connection id, and the shared handle to its queue's receiving end.
pub struct ChannelView {
    pub peer_id: Seq<char>,
    pub conn_id: i32,
    pub receiver: ClipboardReceiver,
}

struct MsgChannel {
    peer_id: String,
    conn_id: i32,
    sender: UnboundedSender<ClipboardFile>,
    receiver: ClipboardReceiver,
}

/// The table of session queues, one per connection id and one per non-empty
/// peer id. Entries are only ever added.
pub struct ClipboardChannels {
    channels: Vec<MsgChannel>,
    broadcast: bool,
}

/// Why no channel could be opened for a peer.
#[derive(Debug, Clone, Copy, PartialEq, Eq)]
pub enum ChannelError {
    /// Every connection id the allocator can still issue is taken.
    ConnIdsExhausted,
}

spec fn view_of(c: MsgChannel) -> ChannelView {
    ChannelView { peer_id: c.peer_id@, conn_id: c.conn_id, receiver: c.receiver }
}

impl View for ClipboardChannels {
    type V = Seq<ChannelView>;

    closed spec fn view(&self) -> Seq<ChannelView> {
        self.channels@.map_values(|c: MsgChannel| view_of(c))
    }
}

/// No two channels share a connection id, nor a non-empty peer id.
pub open spec fn channels_wf(s: Seq<ChannelView>) -> bool {
    &&& forall|i: int, j: int|
        0 <= i < j < s.len() ==> #[trigger] s[i].conn_id != #[trigger] s[j].conn_id
    &&& forall|i: int, j: int|
        0 <= i < j < s.len() && s[i].peer_id.len() > 0 ==> #[trigger] s[i].peer_id
            != #[trigger] s[j].peer_id
}

/// `i` is the first channel that serves peer `p`.
pub open spec fn is_first_with_peer(s: Seq<ChannelView>, p: Seq<char>, i: int) -> bool {
    &&& 0 <= i < s.len()
    &&& s[i].peer_id == p
    &&& forall|j: int| 0 <= j < i ==> s[j].peer_id != p
}

/// Some channel serves peer `p`.
pub open spec fn has_peer(s: Seq<ChannelView>, p: Seq<char>) -> bool {
    exists|i: int| 0 <= i < s.len() && s[i].peer_id == p
}

/// Some channel has connection id `id`.
pub open spec fn has_conn(s: Seq<ChannelView>, id: int) -> bool {
    exists|i: int| 0 <= i < s.len() && s[i].conn_id == id
}

/// The channel that serves peer `p`: the first registered for it.
pub open spec fn peer_entry(s: Seq<ChannelView>, p: Seq<char>) -> Option<ChannelView> {
    if exists|i: int| is_first_with_peer(s, p, i) {
        Some(s[choose|i: int| is_first_with_peer(s, p, i)])
    } else {
        None
    }
}

/// The channel with connection id `id`.
pub open spec fn conn_entry(s: Seq<ChannelView>, id: i32) -> Option<ChannelView> {
    if has_conn(s, id as int) {
        Some(s[choose|i: int| 0 <= i < s.len() && s[i].conn_id == id])
    } else {
        None
    }
}

proof fn lemma_first_with_peer_unique(s: Seq<ChannelView>, p: Seq<char>, i: int, j: int)
    requires
        is_first_with_peer(s, p, i),
        is_first_with_peer(s, p, j),
    ensures
        i == j,
{
}

proof fn lemma_peer_entry_at(s: Seq<ChannelView>, p: Seq<char>, i: int)
    requires
        is_first_with_peer(s, p, i),
    ensures
        peer_entry(s, p) == Some(s[i]),
{
    let k = choose|k: int| is_first_with_peer(s, p, k);
    lemma_first_with_peer_unique(s, p, i, k);
}

proof fn lemma_conn_entry_at(s: Seq<ChannelView>, id: i32, i: int)
    requires
        channels_wf(s),
        0 <= i < s.len(),
        s[i].conn_id == id,
    ensures
        conn_entry(s, id) == Some(s[i]),
{
    let k = choose|k: int| 0 <= k < s.len() && s[k].conn_id == id;
    if k < i {
        assert(s[k].conn_id != s[i].conn_id);
    } else if i < k {
        assert(s[i].conn_id != s[k].conn_id);
    }
}

impl ClipboardChannels {
    /// An empty table. With `broadcast_supported`, a message sent to
    /// connection 0 goes to every channel; without, to the channel whose id
    /// is 0.
    pub fn new(broadcast_supported: bool) -> (r: ClipboardChannels)
        ensures
            r@ == Seq::<ChannelView>::empty(),
            r.wf(),
            r.broadcast_supported() == broadcast_supported,
    {
        let r = ClipboardChannels { channels: Vec::new(), broadcast: broadcast_supported };
        assert(r@ =~= Seq::<ChannelView>::empty());
        r
    }

    pub open spec fn wf(&self) -> bool {
        channels_wf(self@)
    }

    /// Whether connection 0 means every channel.
    pub closed spec fn broadcast_supported(&self) -> bool {
        self.broadcast
    }

    /// Whether connection 0 means every channel.
    pub fn is_broadcast_supported(&self) -> (r: bool)
        ensures
            r == self.broadcast_supported(),
    {
        self.broadcast
    }

    /// The number of registered channels.
    pub fn len(&self) -> (r: usize)
        ensures
            r == self@.len(),
    {
        self.channels.len()
    }

    /// Opens a queue and registers it under `peer_id` and `conn_id`.
    fn register(&mut self, peer_id: String, conn_id: i32) -> (r: ClipboardReceiver)
        requires
            old(self).wf(),
            !has_conn(old(self)@, conn_id as int),
            peer_id@.len() > 0 ==> !has_peer(old(self)@, peer_id@),
        ensures
            final(self)@ == old(self)@.push(
                ChannelView { peer_id: peer_id@, conn_id: conn_id, receiver: r },
            ),
            final(self).wf(),
            final(self).broadcast_supported() == old(self).broadcast_supported(),
    {
        let (sender, receiver) = tokio::sync::mpsc::unbounded_channel();
        let receiver = Arc::new(new_lock(receiver));
        let handle = share(&receiver);
        let ghost before = self@;
        self.channels.push(MsgChannel { peer_id, conn_id, sender, receiver });
        assert(self@ =~= before.push(
            ChannelView { peer_id: peer_id@, conn_id: conn_id, receiver: handle },
        ));
        proof {
            let s = self@;
            let n = before.len() as int;
            assert forall|i: int, j: int|
                0 <= i < j < s.len() && s[i].peer_id.len() > 0 implies #[trigger] s[i].peer_id
                != #[trigger] s[j].peer_id by {
                if j == n && s[i].peer_id == s[j].peer_id {
                    assert(before[i].peer_id == peer_id@);
                }
            }
            assert forall|i: int, j: int| 0 <= i < j < s.len() implies #[trigger] s[i].conn_id
                != #[trigger] s[j].conn_id by {
                if j == n {
                    assert(before[i].conn_id != conn_id);
                }
            }
        }
        handle
    }

    /// Queues `data` on channel `i`, and tells whether its receiving end
    /// took it.
    pub(crate) fn send_at(&self, i: usize, data: ClipboardFile) -> (r: bool)
        requires
            i < self@.len(),
    {
        match self.channels[i].sender.send(data) {
            Ok(()) => true,
            Err(_) => false,
        }
    }

    /// The connection id of channel `i`.
    pub(crate) fn conn_id_at(&self, i: usize) -> (r: i32)
        requires
            i < self@.len(),
        ensures
            r == self@[i as int].conn_id,
    {
        self.channels[i].conn_id
    }

    /// The index of the first channel serving `peer_id`.
    fn find_by_peer(&self, peer_id: &String) -> (r: Option<usize>)
        ensures
            match r {
                Some(i) => is_first_with_peer(self@, peer_id@, i as int),
                None => !has_peer(self@, peer_id@),
            },
    {
        let mut i: usize = 0;
        while i < self.channels.len()
            invariant
                i <= self.channels@.len(),
                self@.len() == self.channels@.len(),
                forall|j: int| 0 <= j < i ==> self@[j].peer_id != peer_id@,
            decreases self.channels@.len() - i,
        {
            if self.channels[i].peer_id == *peer_id {
                return Some(i);
            }
            i = i + 1;
        }
        None
    }

    /// The index of the channel with connection id `conn_id`.
    pub(crate) fn find_by_conn(&self, conn_id: i32) -> (r: Option<usize>)
        ensures
            match r {
                Some(i) => i < self@.len() && self@[i as int].conn_id == conn_id,
                None => !has_conn(self@, conn_id as int),
            },
    {
        let mut i: usize = 0;
        while i < self.channels.len()
            invariant
                i <= self.channels@.len(),
                self@.len() == self.channels@.len(),
                forall|j: int| 0 <= j < i ==> self@[j].conn_id != conn_id,
            decreases self.channels@.len() - i,
        {
            if self.channels[i].conn_id == conn_id {
                return Some(i);
            }
            i = i + 1;
        }
        None
    }
}

/// The connection id of the channel serving `peer_id`, if there is one.
/// Changes nothing.
pub fn get_client_conn_id(channels: &ClipboardChannels, peer_id: &str) -> (r: Option<i32>)
    ensures
        r == (match peer_entry(channels@, peer_id@) {
            Some(e) => Some(e.conn_id),
            None => None::<i32>,
        }),
{
    let key = peer_id.to_owned();
    match channels.find_by_peer(&key) {
        Some(i) => {
            proof {
                lemma_peer_entry_at(channels@, peer_id@, i as int);
            }
            Some(channels.channels[i].conn_id)
        },
        None => None,
    }
}

/// The channel of peer `peer_id`: its connection id and a handle to its
/// queue. Where the peer has none yet, opens one under the next connection id
/// that no channel holds, and registers it for the peer.
pub fn get_rx_cliprdr_client(
    channels: &mut ClipboardChannels,
    ids: &mut ConnIdAllocator,
    peer_id: &str,
) -> (r: Result<(i32, ClipboardReceiver), ChannelError>)
    requires
        old(channels).wf(),
    ensures
        final(channels).wf(),
        final(channels).broadcast_supported() == old(channels).broadcast_supported(),
        match peer_entry(old(channels)@, peer_id@) {
            Some(e) => {
                &&& r == Ok::<(i32, ClipboardReceiver), ChannelError>((e.conn_id, e.receiver))
                &&& final(channels)@ == old(channels)@
                &&& final(ids)@ == old(ids)@
            },
            None => match r {
                Ok((id, h)) => {
                    &&& final(channels)@ == old(channels)@.push(
                        ChannelView { peer_id: peer_id@, conn_id: id, receiver: h },
                    )
                    &&& id > old(ids)@
                    &&& !has_conn(old(channels)@, id as int)
                    &&& final(ids)@ == id
                    &&& forall|k: int|
                        old(ids)@ < k < id ==> #[trigger] has_conn(old(channels)@, k)
                },
                Err(e) => {
                    &&& e == ChannelError::ConnIdsExhausted
                    &&& final(channels)@ == old(channels)@
                    &&& final(ids)@ == i32::MAX
                },
            },
        },
        r is Err <==> (peer_entry(old(channels)@, peer_id@) is None && forall|k: int|
            old(ids)@ < k <= i32::MAX ==> #[trigger] has_conn(old(channels)@, k)),
        r matches Ok((id, h)) ==> peer_entry(final(channels)@, peer_id@) == Some(
            ChannelView { peer_id: peer_id@, conn_id: id, receiver: h },
        ),
{
    let key = peer_id.to_owned();
    match channels.find_by_peer(&key) {
        Some(i) => {
            proof {
                lemma_peer_entry_at(channels@, peer_id@, i as int);
            }
            Ok((channels.channels[i].conn_id, share(&channels.channels[i].receiver)))
        },
        None => {
            proof {
                ids.lemma_range();
            }
            let ghost start = ids@;
            let ghost s = channels@;
            let ghost b = channels.broadcast_supported();
            assert(peer_entry(s, peer_id@) is None);
            loop
                invariant
                    s == old(channels)@,
                    b == old(channels).broadcast_supported(),
                    start == old(ids)@,
                    peer_entry(s, peer_id@) is None,
                    channels@ == s,
                    channels.broadcast_supported() == b,
                    channels.wf(),
                    key@ == peer_id@,
                    !has_peer(s, peer_id@),
                    start <= ids@ <= i32::MAX,
                    forall|k: int| start < k <= ids@ ==> #[trigger] has_conn(s, k),
                decreases i32::MAX - ids@,
            {
                match get_conn_id(ids) {
                    None => {
                        return Err(ChannelError::ConnIdsExhausted);
                    },
                    Some(id) => {
                        if channels.find_by_conn(id).is_none() {
                            let h = channels.register(key, id);
                            proof {
                                lemma_peer_entry_at(channels@, peer_id@, s.len() as int);
                            }
                            return Ok((id, h));
                        }
                    },
                }
            }
        },
    }
}

/// The queue of connection `conn_id`. Where no channel has that id, opens
/// one for it, with no peer id.
pub fn get_rx_cliprdr_server(channels: &mut ClipboardChannels, conn_id: i32) -> (r:
    ClipboardReceiver)
    requires
        old(channels).wf(),
    ensures
        final(channels).wf(),
        final(channels).broadcast_supported() == old(channels).broadcast_supported(),
        match conn_entry(old(channels)@, conn_id) {
            Some(e) => r == e.receiver && final(channels)@ == old(channels)@,
            None => final(channels)@ == old(channels)@.push(
                ChannelView { peer_id: Seq::empty(), conn_id: conn_id, receiver: r },
            ),
        },
        conn_entry(final(channels)@, conn_id) matches Some(e) && e.receiver == r,
{
    match channels.find_by_conn(conn_id) {
        Some(i) => {
            proof {
                lemma_conn_entry_at(channels@, conn_id, i as int);
            }
            share(&channels.channels[i].receiver)
        },
        None => {
            let h = channels.register(String::new(), conn_id);
            proof {
                lemma_conn_entry_at(channels@, conn_id, channels@.len() - 1);
            }
            h
        },
    }
}

/// A peer keeps its channel. The table only grows at its end, so where it
/// gives peer `p` a channel, every later state of it gives `p` that same
/// channel: the same connection id and the same queue handle. That channel
/// is also the one its connection id names, the one a directed send to that
/// id reaches.
pub proof fn lemma_peer_channel_stable(s: Seq<ChannelView>, t: Seq<ChannelView>, p: Seq<char>)
    requires
        s.len() <= t.len(),
        forall|i: int| 0 <= i < s.len() ==> t[i] == s[i],
        channels_wf(t),
        peer_entry(s, p) is Some,
    ensures
        peer_entry(t, p) == peer_entry(s, p),
        conn_entry(t, peer_entry(s, p)->0.conn_id) == peer_entry(s, p),
{
    let i = choose|i: int| is_first_with_peer(s, p, i);
    lemma_peer_entry_at(s, p, i);
    assert(t[i] == s[i]);
    assert forall|j: int| 0 <= j < i implies t[j].peer_id != p by {
        assert(t[j] == s[j]);
    }
    lemma_peer_entry_at(t, p, i);
    lemma_conn_entry_at(t, s[i].conn_id, i);
}

} // verus!
